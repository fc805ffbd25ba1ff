//! What the loader decides once the runtime's shared library was opened
//! and asked for its entry points.

use crate::error::LoadError;
use vstd::prelude::*;

verus! {

/// An entry point of the runtime's shared library.
#[derive(Clone, Copy, Debug, PartialEq, Eq, Structural)]
pub enum EntryPoint {
    Initialize,
    Shutdown,
    Shutdown2,
    CreateDelegate,
    ExecuteAssembly,
}

impl EntryPoint {
    /// True for the entry points that every runtime has. The shutdown that
    /// latches an exit code came later: a runtime may lack it.
    pub open spec fn spec_is_required(self) -> bool {
        !(self is Shutdown2)
    }

    /// The name under which the library exports the entry point.
    pub open spec fn spec_symbol_name(self) -> Seq<char> {
        match self {
            EntryPoint::Initialize => "coreclr_initialize"@,
            EntryPoint::Shutdown => "coreclr_shutdown"@,
            EntryPoint::Shutdown2 => "coreclr_shutdown_2"@,
            EntryPoint::CreateDelegate => "coreclr_create_delegate"@,
            EntryPoint::ExecuteAssembly => "coreclr_execute_assembly"@,
        }
    }

    #[verifier::when_used_as_spec(spec_is_required)]
    pub fn is_required(self) -> (required: bool)
        ensures
            required == self.spec_is_required(),
    {
        match self {
            EntryPoint::Shutdown2 => false,
            _ => true,
        }
    }

    pub fn symbol_name(self) -> (name: &'static str)
        ensures
            name@ == self.spec_symbol_name(),
    {
        match self {
            EntryPoint::Initialize => "coreclr_initialize",
            EntryPoint::Shutdown => "coreclr_shutdown",
            EntryPoint::Shutdown2 => "coreclr_shutdown_2",
            EntryPoint::CreateDelegate => "coreclr_create_delegate",
            EntryPoint::ExecuteAssembly => "coreclr_execute_assembly",
        }
    }
}

/// Which entry points a library was found to export.
#[derive(Clone, Copy, Debug, PartialEq, Eq, Structural)]
pub struct Exports {
    pub initialize: bool,
    pub shutdown: bool,
    pub shutdown_2: bool,
    pub create_delegate: bool,
    pub execute_assembly: bool,
}

impl Exports {
    /// True when the library exports `entry`.
    pub open spec fn spec_offers(self, entry: EntryPoint) -> bool {
        match entry {
            EntryPoint::Initialize => self.initialize,
            EntryPoint::Shutdown => self.shutdown,
            EntryPoint::Shutdown2 => self.shutdown_2,
            EntryPoint::CreateDelegate => self.create_delegate,
            EntryPoint::ExecuteAssembly => self.execute_assembly,
        }
    }

    /// True when the library has the runtime's ABI: when it exports every
    /// required entry point.
    pub open spec fn spec_is_runtime(self) -> bool {
        forall|entry: EntryPoint| entry.is_required() ==> #[trigger] self.spec_offers(entry)
    }

    #[verifier::when_used_as_spec(spec_offers)]
    pub fn offers(self, entry: EntryPoint) -> (yes: bool)
        ensures
            yes == self.spec_offers(entry),
    {
        match entry {
            EntryPoint::Initialize => self.initialize,
            EntryPoint::Shutdown => self.shutdown,
            EntryPoint::Shutdown2 => self.shutdown_2,
            EntryPoint::CreateDelegate => self.create_delegate,
            EntryPoint::ExecuteAssembly => self.execute_assembly,
        }
    }

    #[verifier::when_used_as_spec(spec_is_runtime)]
    pub fn is_runtime(self) -> (yes: bool)
        ensures
            yes == self.spec_is_runtime(),
    {
        let yes = self.initialize && self.shutdown && self.create_delegate
            && self.execute_assembly;
        proof {
            if yes {
                assert forall|entry: EntryPoint| entry.is_required() implies #[trigger] self.spec_offers(
                    entry,
                ) by {}
            } else {
                assert(!self.spec_offers(EntryPoint::Initialize) || !self.spec_offers(
                    EntryPoint::Shutdown,
                ) || !self.spec_offers(EntryPoint::CreateDelegate) || !self.spec_offers(
                    EntryPoint::ExecuteAssembly,
                ));
            }
        }
        yes
    }
}

/// A library that was opened and has the runtime's ABI.
#[derive(Clone, Copy, Debug)]
pub struct LoadedLibrary {
    exports: Exports,
}

impl LoadedLibrary {
    #[verifier::type_invariant]
    spec fn well_formed(&self) -> bool {
        self.exports.is_runtime()
    }

    /// What the library exports.
    pub closed spec fn spec_exports(&self) -> Exports {
        self.exports
    }

    #[verifier::when_used_as_spec(spec_exports)]
    pub fn exports(&self) -> (exports: Exports)
        ensures
            exports == self.spec_exports(),
            exports.is_runtime(),
    {
        proof {
            use_type_invariant(self);
        }
        self.exports
    }
}

/// Decides what opening the library came to. `found` is `None` when the
/// location gave no loadable artifact, and else tells what the artifact
/// exports.
pub fn load(found: Option<Exports>) -> (r: Result<LoadedLibrary, LoadError>)
    ensures
        found is None ==> (r matches Err(e) && e == LoadError::LibraryNotFound),
        found is Some && !found->0.is_runtime() ==> (r matches Err(e) && e
            == LoadError::LoadIncompatible),
        found is Some && found->0.is_runtime() ==> (r matches Ok(library) && library.exports()
            == found->0),
{
    match found {
        None => Err(LoadError::LibraryNotFound),
        Some(exports) => if exports.is_runtime() {
            Ok(LoadedLibrary { exports })
        } else {
            Err(LoadError::LoadIncompatible)
        },
    }
}

/// Decides whether `entry` can be called. The answer is about `entry`
/// alone: what else the library lacks fails no other entry point. A
/// required entry point is always there.
pub fn resolve_symbol(library: &LoadedLibrary, entry: EntryPoint) -> (r: Result<
    EntryPoint,
    LoadError,
>)
    ensures
        library.exports().offers(entry) ==> r == Ok::<EntryPoint, LoadError>(entry),
        !library.exports().offers(entry) ==> r == Err::<EntryPoint, LoadError>(
            LoadError::SymbolNotFound,
        ),
        entry.is_required() ==> r is Ok,
{
    if library.exports().offers(entry) {
        Ok(entry)
    } else {
        Err(LoadError::SymbolNotFound)
    }
}

} // verus!
