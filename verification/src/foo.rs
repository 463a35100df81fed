//! The builder → instance protocol over two global slots.
//!
//! A [`Builder`] accumulates configuration; building it resolves defaults and
//! yields a [`Foo`], the live telemetry instance. One slot stages the
//! builder, the other holds the built instance. Installing a new builder
//! tears the live instance down first, so a stale instance never coexists
//! with a newer builder.

use crate::slot::{GlobalSlot, SlotError};
use vstd::prelude::*;

verus! {

/// The resolved configuration value used when `bar` was never set.
pub open spec fn default_bar() -> Seq<char> {
    "WHATUP"@
}

/// A mutable, temporary object that accumulates configuration before
/// producing an instance.
#[derive(Debug)]
pub struct Builder {
    pub bar: Option<String>,
}

impl Builder {
    /// Creates a builder with no options set.
    pub fn new() -> (r: Self)
        ensures
            r.bar is None,
    {
        Builder { bar: None }
    }

    /// Sets the `bar` option. The last value set wins; earlier values are
    /// discarded, not merged.
    pub fn bar(&mut self, value: String)
        ensures
            final(self).bar == Some(value),
    {
        self.bar = Some(value);
    }

    /// The configuration value an instance built from this builder carries:
    /// the value set, or the documented default when none was.
    pub open spec fn spec_build(self) -> Seq<char> {
        match self.bar {
            Some(s) => s@,
            None => default_bar(),
        }
    }

    /// Produces an instance from this builder's current snapshot,
    /// substituting the documented default for anything unset. Building is a
    /// pure read: the builder is untouched and may be built again.
    pub fn build(&self) -> (r: Foo)
        ensures
            r.spec_bar() == self.spec_build(),
    {
        match &self.bar {
            Some(s) => Foo { bar: s.clone() },
            None => Foo { bar: "WHATUP".to_owned() },
        }
    }
}

/// The resolved, installed telemetry handle that recording call sites look
/// up. Its identity is fixed once constructed; the field may still be
/// mutated in place by a caller holding a reference.
#[derive(Debug)]
pub struct Foo {
    bar: String,
}

impl Foo {
    /// The instance's resolved configuration value.
    pub closed spec fn spec_bar(self) -> Seq<char> {
        self.bar@
    }

    /// Reads the resolved configuration value.
    pub fn bar(&self) -> (r: &str)
        ensures
            r@ == self.spec_bar(),
    {
        self.bar.as_str()
    }

    /// Overwrites the resolved configuration value in place. This never
    /// changes which object is the global instance.
    pub fn set_bar(&mut self, value: String)
        ensures
            final(self).spec_bar() == value@,
    {
        self.bar = value;
    }
}

/// The pair of slots the protocol runs over: one stages the next builder,
/// the other holds the live instance.
pub struct FooState {
    pub builder_slot: GlobalSlot<Builder>,
    pub foo_slot: GlobalSlot<Foo>,
}

impl FooState {
    /// Creates the state with both slots untouched.
    pub fn new() -> (r: Self)
        ensures
            r.builder_slot@ is None,
            r.foo_slot@ is None,
    {
        FooState { builder_slot: GlobalSlot::new(), foo_slot: GlobalSlot::new() }
    }
}

/// Installs `builder` as the staged builder, replacing whatever was staged.
///
/// When a builder is installed (not cleared), the live instance is torn down
/// first: a stale instance must never coexist with a newer builder. Clearing
/// the staged builder leaves the instance slot untouched. The call cannot
/// fail: losing a first-initialization race inside a slot self-heals on the
/// replace path.
pub fn setup_foo_builder(state: &mut FooState, builder: Option<Builder>) -> (r: Result<
    (),
    SlotError,
>)
    ensures
        r is Ok,
        final(state).builder_slot@ == Some(builder),
        builder is Some ==> final(state).foo_slot@ == Some(None::<Foo>),
        builder is None ==> final(state).foo_slot@ == old(state).foo_slot@,
{
    if builder.is_some() {
        // A new builder invalidates any previously built instance.
        let _dropped = setup_foo(state, None);
    }
    state.builder_slot.set(builder)
}

/// Returns the staged builder's slot contents, or nothing if the builder
/// slot was never touched.
pub fn global_foo_builder(state: &FooState) -> (r: Option<&Option<Builder>>)
    ensures
        r is Some <==> state.builder_slot@ is Some,
        r matches Some(c) ==> state.builder_slot@ == Some(*c),
{
    state.builder_slot.get()
}

/// Installs `foo` as the live instance, replacing whatever was installed.
///
/// When an instance is installed (not cleared), the slot is cleared first:
/// reconfiguration is two atomic steps with a real empty window in between,
/// never an in-place swap of one live instance for another. Clearing
/// (`foo == None`) is explicit teardown and is idempotent. The staged
/// builder is untouched either way.
pub fn setup_foo(state: &mut FooState, foo: Option<Foo>) -> (r: Result<(), SlotError>)
    ensures
        r is Ok,
        final(state).foo_slot@ == Some(foo),
        final(state).builder_slot@ == old(state).builder_slot@,
{
    if foo.is_some() {
        // Drop the current instance before installing the next one.
        let _dropped = state.foo_slot.set(None);
    }
    state.foo_slot.set(foo)
}

/// Returns the live instance's slot contents, or nothing if the instance
/// slot was never touched. An absent instance is a defined empty state, not
/// an error: dependent metric calls degrade to silent no-ops.
pub fn global_foo(state: &FooState) -> (r: Option<&Option<Foo>>)
    ensures
        r is Some <==> state.foo_slot@ is Some,
        r matches Some(c) ==> state.foo_slot@ == Some(*c),
{
    state.foo_slot.get()
}

/// Reads the staged builder and, if one is present, builds an instance from
/// it (substituting defaults for unset options) and installs it. With no
/// staged builder this is a no-op.
pub fn build_and_install(state: &mut FooState) -> (r: Result<(), SlotError>)
    ensures
        r is Ok,
        final(state).builder_slot@ == old(state).builder_slot@,
        (match old(state).builder_slot@ {
            Some(Some(b)) => final(state).foo_slot@ matches Some(Some(f)) && f.spec_bar()
                == b.spec_build(),
            _ => *final(state) == *old(state),
        }),
{
    let built: Option<Foo> = match state.builder_slot.get() {
        Some(staged) => match staged {
            Some(b) => Some(b.build()),
            None => None,
        },
        None => None,
    };
    match built {
        Some(f) => setup_foo(state, Some(f)),
        None => Ok(()),
    }
}

// ---------------------------------------------------------------------------
// The write-trace model of the instance slot.
//
// Each protocol operation performs a fixed sequence of atomic writes to the
// instance slot (each write is one locked `GlobalSlot::set`). The spec
// functions below record those sequences, abstracted to the observable
// resolved configuration value of the written instance (`None` is a cleared
// slot). The lemmas then show that across any sequence of operations the
// observable value never steps directly from one installed instance to
// another: the empty window between two installs is real, not merely
// nominal.
// ---------------------------------------------------------------------------

/// The writes `setup_foo` performs on the instance slot, in order: a
/// teardown first whenever an instance is installed.
pub open spec fn instance_writes_of_setup_foo(foo: Option<Foo>) -> Seq<Option<Seq<char>>> {
    match foo {
        Some(f) => seq![None, Some(f.spec_bar())],
        None => seq![None],
    }
}

/// The writes `setup_foo_builder` performs on the instance slot: installing
/// a builder tears the instance down; clearing the builder touches it not.
pub open spec fn instance_writes_of_setup_foo_builder(builder: Option<Builder>) -> Seq<
    Option<Seq<char>>,
> {
    if builder is Some {
        seq![None]
    } else {
        Seq::empty()
    }
}

/// The writes `build_and_install` performs on the instance slot, given the
/// builder slot's contents at the time: with a staged builder, a teardown
/// followed by the built instance; otherwise nothing.
pub open spec fn instance_writes_of_build_and_install(staged: Option<Option<Builder>>) -> Seq<
    Option<Seq<char>>,
> {
    match staged {
        Some(Some(b)) => seq![None, Some(b.spec_build())],
        _ => Seq::empty(),
    }
}

/// Holds of a write trace in which every installed instance is immediately
/// preceded by a teardown write. In particular such a trace never begins
/// with an install.
pub open spec fn writes_guarded(w: Seq<Option<Seq<char>>>) -> bool {
    forall|i: int| 0 <= i < w.len() && #[trigger] w[i] is Some ==> i >= 1 && w[i - 1] is None
}

/// The observable values of the instance slot around a write trace: the
/// value before the first write, then the value after each write.
pub open spec fn observations(v0: Option<Seq<char>>, w: Seq<Option<Seq<char>>>) -> Seq<
    Option<Seq<char>>,
> {
    seq![v0] + w
}

/// Holds when no step of an observation sequence goes directly from one
/// non-empty value to a non-empty value.
pub open spec fn no_direct_replacement(obs: Seq<Option<Seq<char>>>) -> bool {
    forall|i: int| 0 <= i && i + 1 < obs.len() ==> !(obs[i] is Some && #[trigger] obs[i + 1] is Some)
}

/// Every protocol operation's instance-slot write trace is guarded: an
/// install is always immediately preceded by a teardown.
pub proof fn lemma_protocol_writes_guarded(
    foo: Option<Foo>,
    builder: Option<Builder>,
    staged: Option<Option<Builder>>,
)
    ensures
        writes_guarded(instance_writes_of_setup_foo(foo)),
        writes_guarded(instance_writes_of_setup_foo_builder(builder)),
        writes_guarded(instance_writes_of_build_and_install(staged)),
{
}

/// Guarded traces compose: the writes of one protocol operation after
/// another form a guarded trace again, since no operation begins with an
/// install.
pub proof fn lemma_writes_guarded_concat(a: Seq<Option<Seq<char>>>, b: Seq<Option<Seq<char>>>)
    requires
        writes_guarded(a),
        writes_guarded(b),
    ensures
        writes_guarded(a + b),
{
    assert forall|i: int| 0 <= i < (a + b).len() && #[trigger] (a + b)[i] is Some implies i >= 1 && (
    a + b)[i - 1] is None by {
        if i < a.len() {
            assert(a[i] is Some);
            assert((a + b)[i - 1] == a[i - 1]);
        } else {
            assert(b[i - a.len()] is Some);
            if i - a.len() >= 1 {
                assert((a + b)[i - 1] == b[i - a.len() - 1]);
            }
        }
    }
}

/// Law: from any starting value, applying any guarded write trace — by
/// `lemma_protocol_writes_guarded` and `lemma_writes_guarded_concat`, the
/// trace of any sequence of protocol operations — the observable instance
/// value never transitions directly between two non-empty values: at least
/// one intermediate empty read is possible between any two installs.
pub proof fn lemma_empty_window_real(v0: Option<Seq<char>>, w: Seq<Option<Seq<char>>>)
    requires
        writes_guarded(w),
    ensures
        no_direct_replacement(observations(v0, w)),
{
    let obs = observations(v0, w);
    assert forall|i: int| 0 <= i && i + 1 < obs.len() implies !(obs[i] is Some
        && #[trigger] obs[i + 1] is Some) by {
        if obs[i + 1] is Some {
            assert(w[i] is Some);
            assert(i >= 1);
            assert(obs[i] == w[i - 1]);
        }
    }
}

/// Law: after a new builder is staged the instance reads empty and stays
/// empty until an instance is installed again. Staging or clearing a builder
/// and explicit teardown only ever write the empty value into the instance
/// slot, and a rebuild without a staged builder writes nothing: only
/// `setup_foo` with an instance, or `build_and_install` with a staged
/// builder, can fill it.
pub proof fn lemma_instance_stays_empty(builder: Option<Builder>, staged: Option<Option<Builder>>)
    ensures
        forall|i: int| 0 <= i < instance_writes_of_setup_foo_builder(builder).len()
            ==> #[trigger] instance_writes_of_setup_foo_builder(builder)[i] is None,
        forall|i: int| 0 <= i < instance_writes_of_setup_foo(None).len()
            ==> #[trigger] instance_writes_of_setup_foo(None)[i] is None,
        !(staged matches Some(Some(_))) ==> instance_writes_of_build_and_install(staged)
            == Seq::<Option<Seq<char>>>::empty(),
{
}

/// Law: repeated teardown is idempotent. `s1` is a state left by one
/// teardown (`setup_foo` with no instance, per its contract: instance slot
/// materialized and empty, builder slot untouched), and `s2` a state left by
/// a second teardown from `s1`; the second changes nothing observable.
pub proof fn lemma_teardown_idempotent(s0: FooState, s1: FooState, s2: FooState)
    requires
        s1.foo_slot@ == Some(None::<Foo>),
        s1.builder_slot@ == s0.builder_slot@,
        s2.foo_slot@ == Some(None::<Foo>),
        s2.builder_slot@ == s1.builder_slot@,
    ensures
        s2.foo_slot@ == s1.foo_slot@,
        s2.builder_slot@ == s1.builder_slot@,
        s2.foo_slot@ == Some(None::<Foo>),
{
}

/// Law: last write wins. A builder on which `bar` was last set to `value`
/// (per `Builder::bar`'s contract), whatever was set before, builds an
/// instance carrying exactly `value` — no merging with earlier values or
/// with the default.
pub proof fn lemma_last_write_wins(after: Builder, value: String)
    requires
        after.bar == Some(value),
    ensures
        after.spec_build() == value@,
{
}

} // verus!
