use clr_host::error::LoadError;
use clr_host::loader::{load, resolve_symbol, EntryPoint, Exports};

fn everything() -> Exports {
    Exports {
        initialize: true,
        shutdown: true,
        shutdown_2: true,
        create_delegate: true,
        execute_assembly: true,
    }
}

const ALL: [EntryPoint; 5] = [
    EntryPoint::Initialize,
    EntryPoint::Shutdown,
    EntryPoint::Shutdown2,
    EntryPoint::CreateDelegate,
    EntryPoint::ExecuteAssembly,
];

#[test]
fn entry_points_have_the_names_of_the_abi() {
    assert_eq!(EntryPoint::Initialize.symbol_name(), "coreclr_initialize");
    assert_eq!(EntryPoint::Shutdown.symbol_name(), "coreclr_shutdown");
    assert_eq!(EntryPoint::Shutdown2.symbol_name(), "coreclr_shutdown_2");
    assert_eq!(EntryPoint::CreateDelegate.symbol_name(), "coreclr_create_delegate");
    assert_eq!(EntryPoint::ExecuteAssembly.symbol_name(), "coreclr_execute_assembly");
}

#[test]
fn only_the_latching_shutdown_is_optional() {
    for entry in ALL {
        assert_eq!(entry.is_required(), entry != EntryPoint::Shutdown2);
    }
}

#[test]
fn no_artifact_is_library_not_found() {
    assert_eq!(load(None).err(), Some(LoadError::LibraryNotFound));
}

#[test]
fn artifact_without_a_required_entry_point_is_incompatible() {
    let nothing = Exports {
        initialize: false,
        shutdown: false,
        shutdown_2: false,
        create_delegate: false,
        execute_assembly: false,
    };
    assert!(!nothing.is_runtime());
    assert_eq!(load(Some(nothing)).err(), Some(LoadError::LoadIncompatible));
    for missing in [
        Exports { initialize: false, ..everything() },
        Exports { shutdown: false, ..everything() },
        Exports { create_delegate: false, ..everything() },
        Exports { execute_assembly: false, ..everything() },
    ] {
        assert!(!missing.is_runtime());
        assert_eq!(load(Some(missing)).err(), Some(LoadError::LoadIncompatible));
    }
}

#[test]
fn full_artifact_resolves_every_entry_point() {
    assert!(everything().is_runtime());
    let library = load(Some(everything())).unwrap();
    assert_eq!(library.exports(), everything());
    for entry in ALL {
        assert!(everything().offers(entry));
        assert_eq!(resolve_symbol(&library, entry), Ok(entry));
    }
}

#[test]
fn older_runtime_lacks_only_the_latching_shutdown() {
    let older = Exports { shutdown_2: false, ..everything() };
    assert!(older.is_runtime());
    let library = load(Some(older)).unwrap();
    assert_eq!(resolve_symbol(&library, EntryPoint::Shutdown2), Err(LoadError::SymbolNotFound));
    for entry in ALL {
        if entry != EntryPoint::Shutdown2 {
            assert_eq!(resolve_symbol(&library, entry), Ok(entry));
        }
    }
}
