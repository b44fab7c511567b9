//! The state custodian: a cell that owns at most one carried state value, and
//! the ways an entry point is run against it.

use vstd::prelude::*;

verus! {

/// Owner of the single application state value that travels from one
/// generation of the reloadable unit to the next.
///
/// The value is either held here or checked out to exactly one invocation.
pub struct Custodian<S> {
    slot: Option<S>,
}

impl<S> View for Custodian<S> {
    type V = Option<S>;

    closed spec fn view(&self) -> Option<S> {
        self.slot
    }
}

impl<S> Custodian<S> {
    /// A custodian that holds nothing yet.
    pub fn new() -> (c: Self)
        ensures
            c@ is None,
    {
        Custodian { slot: None }
    }

    /// Whether a value is currently held.
    pub fn holds(&self) -> (b: bool)
        ensures
            b == (self@ is Some),
    {
        self.slot.is_some()
    }

    /// Checks the value out. Afterwards the custodian is empty, so a second
    /// `take` without a `put` in between yields `None`.
    pub fn take(&mut self) -> (state: Option<S>)
        ensures
            state == old(self)@,
            final(self)@ is None,
    {
        self.slot.take()
    }

    /// Hands a value back. The custodian must be empty: a value already held
    /// would be lost.
    pub fn put(&mut self, state: S)
        requires
            old(self)@ is None,
        ensures
            final(self)@ == Some(state),
    {
        self.slot = Some(state);
    }
}

/// The entry points that the supervisor calls on a reloadable unit.
#[derive(Clone, Copy, Debug, PartialEq, Eq, Structural)]
pub enum EntryPoint {
    /// Makes the state. Every unit must export it.
    Init,
    /// Runs against the state until it is asked to stop. Every unit must
    /// export it.
    Main,
    /// Runs once per swap, after the main entry point has returned. A unit
    /// may leave it out.
    PostMain,
    /// Consumes the state when the process ends. A unit may leave it out.
    Drop,
}

impl EntryPoint {
    /// The name under which the entry point is exported.
    pub open spec fn name(self) -> Seq<char> {
        match self {
            EntryPoint::Init => "hot_init"@,
            EntryPoint::Main => "hot_main"@,
            EntryPoint::PostMain => "hot_post_main"@,
            EntryPoint::Drop => "hot_drop"@,
        }
    }

    /// Whether a unit without this entry point is invalid.
    pub open spec fn is_required(self) -> bool {
        self is Init || self is Main
    }

    /// The name under which the entry point is exported.
    pub fn symbol(self) -> (name: &'static str)
        ensures
            name@ == self.name(),
    {
        match self {
            EntryPoint::Init => "hot_init",
            EntryPoint::Main => "hot_main",
            EntryPoint::PostMain => "hot_post_main",
            EntryPoint::Drop => "hot_drop",
        }
    }

    /// Whether a unit without this entry point is invalid.
    pub fn required(self) -> (required: bool)
        ensures
            required == self.is_required(),
    {
        match self {
            EntryPoint::Init | EntryPoint::Main => true,
            EntryPoint::PostMain | EntryPoint::Drop => false,
        }
    }
}

/// The entry point that was asked for is not exported by the library.
#[derive(Clone, Copy, Debug, PartialEq, Eq, Structural)]
pub enum LookupError {
    SymbolMissing,
}

/// Runs the initialisation entry point, which is required, and stores the
/// state it makes.
///
/// `fun` is the resolved entry point, or `None` where the library does not
/// export it, which is an error. The custodian must be empty: there is no
/// state before the initialisation.
pub fn call_init<S, F: FnOnce() -> S>(state: &mut Custodian<S>, fun: Option<F>) -> (called: Result<
    (),
    LookupError,
>)
    requires
        fun matches Some(f) ==> old(state)@ is None && f.requires(()),
    ensures
        match fun {
            Some(f) => called is Ok && final(state)@ is Some && f.ensures((), final(state)@->0),
            None => called == Err::<(), LookupError>(LookupError::SymbolMissing) && final(state)@
                == old(state)@,
        },
{
    match fun {
        Some(f) => {
            let made = f();
            state.put(made);
            Ok(())
        },
        None => Err(LookupError::SymbolMissing),
    }
}

/// Runs a required entry point against the carried state.
///
/// `fun` is the resolved entry point, or `None` where the library does not
/// export it, which is an error. Where it is there, the state is checked out,
/// handed to `fun`, and whatever `fun` returns becomes the carried state;
/// `fun` returns `None` where it has consumed the state.
pub fn call_lib_symbol<S, F: FnOnce(S) -> Option<S>>(state: &mut Custodian<S>, fun: Option<F>) -> (called:
    Result<(), LookupError>)
    requires
        fun matches Some(f) ==> old(state)@ is Some && f.requires((old(state)@->0,)),
    ensures
        match fun {
            Some(f) => called is Ok && f.ensures((old(state)@->0,), final(state)@),
            None => called == Err::<(), LookupError>(LookupError::SymbolMissing) && final(state)@
                == old(state)@,
        },
{
    match fun {
        Some(f) => {
            run(state, f);
            Ok(())
        },
        None => Err(LookupError::SymbolMissing),
    }
}

/// Runs an optional entry point against the carried state.
///
/// Where the library does not export it (`None`), nothing happens and the
/// custodian is not touched. Otherwise as [`call_lib_symbol`].
pub fn call_lib_symbol_opt<S, F: FnOnce(S) -> Option<S>>(state: &mut Custodian<S>, fun: Option<F>)
    requires
        fun matches Some(f) ==> old(state)@ is Some && f.requires((old(state)@->0,)),
    ensures
        match fun {
            Some(f) => f.ensures((old(state)@->0,), final(state)@),
            None => final(state)@ == old(state)@,
        },
{
    match fun {
        Some(f) => {
            run(state, f);
        },
        None => {},
    }
}

/// Runs `entry` against the carried state, in the mode that `entry` calls
/// for: a missing entry point is an error where it is required, and is
/// passed over where it is not. Either way the custodian is not touched
/// then.
pub fn call_entry_point<S, F: FnOnce(S) -> Option<S>>(
    entry: EntryPoint,
    state: &mut Custodian<S>,
    fun: Option<F>,
) -> (called: Result<(), LookupError>)
    requires
        fun matches Some(f) ==> old(state)@ is Some && f.requires((old(state)@->0,)),
    ensures
        match fun {
            Some(f) => called is Ok && f.ensures((old(state)@->0,), final(state)@),
            None => final(state)@ == old(state)@ && called == if entry.is_required() {
                Err::<(), LookupError>(LookupError::SymbolMissing)
            } else {
                Ok::<(), LookupError>(())
            },
        },
{
    if entry.required() {
        call_lib_symbol(state, fun)
    } else {
        call_lib_symbol_opt(state, fun);
        Ok(())
    }
}

fn run<S, F: FnOnce(S) -> Option<S>>(state: &mut Custodian<S>, fun: F)
    requires
        old(state)@ is Some,
        fun.requires((old(state)@->0,)),
    ensures
        fun.ensures((old(state)@->0,), final(state)@),
{
    let old_state = state.take().unwrap();
    let new_state = fun(old_state);
    match new_state {
        Some(value) => state.put(value),
        None => {},
    }
}

} // verus!
