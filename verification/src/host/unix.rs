//! Hosting the CLR through the entry points of its shared library.

use crate::error::{HostError, LoadError};
use crate::host::{delegate_encodable, execute_encodable, initialize_encodable, ClrHost};
use crate::marshal::{
    all_native_strings, is_native_string, keys_of, lemma_native_array_well_formed,
    lemma_native_round_trip, native_array, native_bytes, texts_of, to_native_args,
    to_native_string, to_native_string_table, values_of, NativeString, NativeStringArray,
    NativeStringTable, MAX_NATIVE_COUNT,
};
use crate::properties::PropertyTable;
use crate::state::{run, DelegateHandle, DomainId, HostEvent, HostHandle, HostState};
use vstd::prelude::*;

verus! {

/// What `coreclr_initialize` gave: its status, and what it wrote.
#[derive(Clone, Copy, Debug, PartialEq, Eq, Structural)]
pub struct InitializeOutput {
    pub status: i32,
    pub host_handle: usize,
    pub domain_id: u32,
}

/// What `coreclr_execute_assembly` gave.
#[derive(Clone, Copy, Debug, PartialEq, Eq, Structural)]
pub struct ExecuteOutput {
    pub status: i32,
    pub exit_code: u32,
}

/// What `coreclr_create_delegate` gave.
#[derive(Clone, Copy, Debug, PartialEq, Eq, Structural)]
pub struct DelegateOutput {
    pub status: i32,
    pub delegate: usize,
}

/// What `coreclr_shutdown_2` gave.
#[derive(Clone, Copy, Debug, PartialEq, Eq, Structural)]
pub struct ShutdownOutput {
    pub status: i32,
    pub latched_exit_code: i32,
}

/// The arguments of `coreclr_initialize`, owned until the call is over.
#[derive(Debug)]
pub struct InitializeCall {
    pub exe_path: NativeString,
    pub app_domain_name: NativeString,
    pub properties: NativeStringTable,
}

/// The arguments of `coreclr_execute_assembly`, owned until the call is
/// over.
#[derive(Debug)]
pub struct ExecuteCall {
    pub host_handle: HostHandle,
    pub domain_id: DomainId,
    pub argv: NativeStringArray,
    pub managed_assembly_path: NativeString,
}

/// The arguments of `coreclr_create_delegate`, owned until the call is
/// over.
#[derive(Debug)]
pub struct DelegateCall {
    pub host_handle: HostHandle,
    pub domain_id: DomainId,
    pub assembly_name: NativeString,
    pub class_name: NativeString,
    pub method_name: NativeString,
}

impl InitializeCall {
    /// True when the call is fit for native code: each string is UTF-8 and
    /// ends in its only NUL byte, and the keys are as many as the values.
    pub open spec fn well_formed(&self) -> bool {
        &&& is_native_string(self.exe_path@)
        &&& is_native_string(self.app_domain_name@)
        &&& self.properties.key_buffers().len() == self.properties.value_buffers().len()
        &&& all_native_strings(self.properties.key_buffers())
        &&& all_native_strings(self.properties.value_buffers())
    }

    /// True when the call hands over these inputs, each in its native form
    /// and in its place: the key and the value of an entry at the entry's
    /// index.
    pub open spec fn carries(
        &self,
        exe_path: Seq<char>,
        app_domain_name: Seq<char>,
        properties: Seq<(Seq<char>, Seq<char>)>,
    ) -> bool {
        &&& self.exe_path@ == native_bytes(exe_path)
        &&& self.app_domain_name@ == native_bytes(app_domain_name)
        &&& self.properties.key_buffers() == native_array(keys_of(properties))
        &&& self.properties.value_buffers() == native_array(values_of(properties))
    }

    /// The number of properties, as native code takes it.
    pub fn property_count(&self) -> (n: i32)
        ensures
            n == self.properties.key_buffers().len(),
            n == self.properties.value_buffers().len(),
    {
        self.properties.count()
    }
}

impl ExecuteCall {
    /// True when the call is fit for native code.
    pub open spec fn well_formed(&self) -> bool {
        all_native_strings(self.argv@) && is_native_string(self.managed_assembly_path@)
    }

    /// True when the call hands over these inputs, each in its native form
    /// and in its place.
    pub open spec fn carries(
        &self,
        host_handle: HostHandle,
        domain_id: DomainId,
        args: Seq<Seq<char>>,
        assembly_path: Seq<char>,
    ) -> bool {
        &&& self.host_handle == host_handle
        &&& self.domain_id == domain_id
        &&& self.argv@ == native_array(args)
        &&& self.managed_assembly_path@ == native_bytes(assembly_path)
    }

    /// The number of arguments, as native code takes it.
    pub fn argc(&self) -> (n: i32)
        ensures
            n == self.argv@.len(),
    {
        self.argv.count()
    }
}

impl DelegateCall {
    /// True when the call is fit for native code.
    pub open spec fn well_formed(&self) -> bool {
        &&& is_native_string(self.assembly_name@)
        &&& is_native_string(self.class_name@)
        &&& is_native_string(self.method_name@)
    }

    /// True when the call hands over these inputs, each in its native form
    /// and in its place.
    pub open spec fn carries(
        &self,
        host_handle: HostHandle,
        domain_id: DomainId,
        assembly_name: Seq<char>,
        class_name: Seq<char>,
        method_name: Seq<char>,
    ) -> bool {
        &&& self.host_handle == host_handle
        &&& self.domain_id == domain_id
        &&& self.assembly_name@ == native_bytes(assembly_name)
        &&& self.class_name@ == native_bytes(class_name)
        &&& self.method_name@ == native_bytes(method_name)
    }
}

/// The entry points of the runtime's shared library. A call finds the
/// library and its symbol, makes the native call once, and gives what the
/// runtime wrote; a library or a symbol that is not there is a `LoadError`,
/// of that call alone.
///
/// The strings of a call are borrowed from the call, which outlives the
/// native call: a pointer into them is good until the method returns, and
/// no longer.
pub trait NativeRuntime {
    fn coreclr_initialize(&self, call: &InitializeCall) -> Result<InitializeOutput, LoadError>
        requires
            call.well_formed(),
    ;

    fn coreclr_shutdown(&self, host_handle: HostHandle, domain_id: DomainId) -> Result<
        i32,
        LoadError,
    >;

    fn coreclr_shutdown_2(&self, host_handle: HostHandle, domain_id: DomainId) -> Result<
        ShutdownOutput,
        LoadError,
    >;

    fn coreclr_create_delegate(&self, call: &DelegateCall) -> Result<DelegateOutput, LoadError>
        requires
            call.well_formed(),
    ;

    fn coreclr_execute_assembly(&self, call: &ExecuteCall) -> Result<ExecuteOutput, LoadError>
        requires
            call.well_formed(),
    ;
}

/// Makes the arguments of `coreclr_initialize`. One string with a NUL
/// character inside fails the call before it is made.
pub fn prepare_initialize(
    exe_path: &str,
    app_domain_name: &str,
    properties: &PropertyTable,
) -> (r: Result<InitializeCall, HostError>)
    ensures
        initialize_encodable(exe_path@, app_domain_name@, properties@) ==> (r matches Ok(call)
            && call.carries(exe_path@, app_domain_name@, properties@) && call.well_formed()),
        !initialize_encodable(exe_path@, app_domain_name@, properties@) ==> (r matches Err(e)
            && e == HostError::InvalidStringEncoding),
{
    let exe_path_raw = match to_native_string(exe_path) {
        Ok(raw) => raw,
        Err(error) => {
            return Err(error);
        },
    };
    let app_domain_name_raw = match to_native_string(app_domain_name) {
        Ok(raw) => raw,
        Err(error) => {
            return Err(error);
        },
    };
    let table = match to_native_string_table(properties) {
        Ok(table) => table,
        Err(error) => {
            return Err(error);
        },
    };
    proof {
        lemma_native_round_trip(exe_path@);
        lemma_native_round_trip(app_domain_name@);
        lemma_native_array_well_formed(keys_of(properties@));
        lemma_native_array_well_formed(values_of(properties@));
    }
    Ok(InitializeCall { exe_path: exe_path_raw, app_domain_name: app_domain_name_raw, properties: table })
}

/// Makes the arguments of `coreclr_execute_assembly`.
pub fn prepare_execute(
    host_handle: HostHandle,
    domain_id: DomainId,
    args: &Vec<&str>,
    assembly_path: &str,
) -> (r: Result<ExecuteCall, HostError>)
    requires
        args@.len() <= MAX_NATIVE_COUNT,
    ensures
        execute_encodable(texts_of(args@), assembly_path@) ==> (r matches Ok(call)
            && call.carries(host_handle, domain_id, texts_of(args@), assembly_path@)
            && call.well_formed()),
        !execute_encodable(texts_of(args@), assembly_path@) ==> (r matches Err(e) && e
            == HostError::InvalidStringEncoding),
{
    let argv = match to_native_args(args) {
        Ok(argv) => argv,
        Err(error) => {
            return Err(error);
        },
    };
    let managed_assembly_path = match to_native_string(assembly_path) {
        Ok(raw) => raw,
        Err(error) => {
            return Err(error);
        },
    };
    proof {
        lemma_native_array_well_formed(texts_of(args@));
        lemma_native_round_trip(assembly_path@);
    }
    Ok(ExecuteCall { host_handle, domain_id, argv, managed_assembly_path })
}

/// Makes the arguments of `coreclr_create_delegate`.
pub fn prepare_delegate(
    host_handle: HostHandle,
    domain_id: DomainId,
    assembly_name: &str,
    class_name: &str,
    method_name: &str,
) -> (r: Result<DelegateCall, HostError>)
    ensures
        delegate_encodable(assembly_name@, class_name@, method_name@) ==> (r matches Ok(call)
            && call.carries(host_handle, domain_id, assembly_name@, class_name@, method_name@)
            && call.well_formed()),
        !delegate_encodable(assembly_name@, class_name@, method_name@) ==> (r matches Err(e)
            && e == HostError::InvalidStringEncoding),
{
    let assembly_raw = match to_native_string(assembly_name) {
        Ok(raw) => raw,
        Err(error) => {
            return Err(error);
        },
    };
    let class_raw = match to_native_string(class_name) {
        Ok(raw) => raw,
        Err(error) => {
            return Err(error);
        },
    };
    let method_raw = match to_native_string(method_name) {
        Ok(raw) => raw,
        Err(error) => {
            return Err(error);
        },
    };
    proof {
        lemma_native_round_trip(assembly_name@);
        lemma_native_round_trip(class_name@);
        lemma_native_round_trip(method_name@);
    }
    Ok(
        DelegateCall {
            host_handle,
            domain_id,
            assembly_name: assembly_raw,
            class_name: class_raw,
            method_name: method_raw,
        },
    )
}

/// What initialization comes to, given what the native call gave.
pub open spec fn initialize_result_of(outcome: Result<InitializeOutput, LoadError>) -> Result<
    (HostHandle, DomainId),
    HostError,
> {
    match outcome {
        Err(error) => Err(HostError::of_load_error(error)),
        Ok(output) => if output.status == 0 {
            Ok((HostHandle(output.host_handle), DomainId(output.domain_id)))
        } else {
            Err(HostError::InitializationFailed(output.status))
        },
    }
}

/// What running an assembly comes to. The exit code counts only where the
/// native status is success.
pub open spec fn execute_result_of(outcome: Result<ExecuteOutput, LoadError>) -> Result<
    u32,
    HostError,
> {
    match outcome {
        Err(error) => Err(HostError::of_load_error(error)),
        Ok(output) => if output.status == 0 {
            Ok(output.exit_code)
        } else {
            Err(HostError::ExecutionFailed(output.status))
        },
    }
}

/// What making a delegate comes to.
pub open spec fn delegate_result_of(outcome: Result<DelegateOutput, LoadError>) -> Result<
    DelegateHandle,
    HostError,
> {
    match outcome {
        Err(error) => Err(HostError::of_load_error(error)),
        Ok(output) => if output.status == 0 {
            Ok(DelegateHandle(output.delegate))
        } else {
            Err(HostError::DelegateCreationFailed(output.status))
        },
    }
}

/// What the plain shutdown comes to.
pub open spec fn shutdown_result_of(outcome: Result<i32, LoadError>) -> Result<(), HostError> {
    match outcome {
        Err(error) => Err(HostError::of_load_error(error)),
        Ok(status) => if status == 0 {
            Ok(())
        } else {
            Err(HostError::ShutdownFailed(status))
        },
    }
}

/// What the shutdown that latches an exit code comes to.
pub open spec fn shutdown_2_result_of(outcome: Result<ShutdownOutput, LoadError>) -> Result<
    Option<i32>,
    HostError,
> {
    match outcome {
        Err(error) => Err(HostError::of_load_error(error)),
        Ok(output) => if output.status == 0 {
            Ok(Some(output.latched_exit_code))
        } else {
            Err(HostError::ShutdownFailed(output.status))
        },
    }
}

/// What `initialize` answers on these inputs, given what the native call
/// gave: inputs without a native form fail whatever the runtime would have
/// said.
pub open spec fn initialize_answer(
    exe_path: Seq<char>,
    app_domain_name: Seq<char>,
    properties: Seq<(Seq<char>, Seq<char>)>,
    outcome: Result<InitializeOutput, LoadError>,
) -> Result<(HostHandle, DomainId), HostError> {
    if initialize_encodable(exe_path, app_domain_name, properties) {
        initialize_result_of(outcome)
    } else {
        Err(HostError::InvalidStringEncoding)
    }
}

/// What `execute_assembly` answers on these inputs, given what the native
/// call gave.
pub open spec fn execute_answer(
    args: Seq<Seq<char>>,
    assembly_path: Seq<char>,
    outcome: Result<ExecuteOutput, LoadError>,
) -> Result<u32, HostError> {
    if execute_encodable(args, assembly_path) {
        execute_result_of(outcome)
    } else {
        Err(HostError::InvalidStringEncoding)
    }
}

/// What `create_delegate` answers on these inputs, given what the native
/// call gave.
pub open spec fn delegate_answer(
    assembly_name: Seq<char>,
    class_name: Seq<char>,
    method_name: Seq<char>,
    outcome: Result<DelegateOutput, LoadError>,
) -> Result<DelegateHandle, HostError> {
    if delegate_encodable(assembly_name, class_name, method_name) {
        delegate_result_of(outcome)
    } else {
        Err(HostError::InvalidStringEncoding)
    }
}

/// Tells what initialization came to.
pub fn initialize_result(outcome: Result<InitializeOutput, LoadError>) -> (r: Result<
    (HostHandle, DomainId),
    HostError,
>)
    ensures
        r == initialize_result_of(outcome),
{
    match outcome {
        Err(error) => Err(HostError::from_load_error(error)),
        Ok(output) => if output.status == 0 {
            Ok((HostHandle(output.host_handle), DomainId(output.domain_id)))
        } else {
            Err(HostError::InitializationFailed(output.status))
        },
    }
}

/// Tells what running an assembly came to.
pub fn execute_result(outcome: Result<ExecuteOutput, LoadError>) -> (r: Result<u32, HostError>)
    ensures
        r == execute_result_of(outcome),
{
    match outcome {
        Err(error) => Err(HostError::from_load_error(error)),
        Ok(output) => if output.status == 0 {
            Ok(output.exit_code)
        } else {
            Err(HostError::ExecutionFailed(output.status))
        },
    }
}

/// Tells what making a delegate came to.
pub fn delegate_result(outcome: Result<DelegateOutput, LoadError>) -> (r: Result<
    DelegateHandle,
    HostError,
>)
    ensures
        r == delegate_result_of(outcome),
{
    match outcome {
        Err(error) => Err(HostError::from_load_error(error)),
        Ok(output) => if output.status == 0 {
            Ok(DelegateHandle(output.delegate))
        } else {
            Err(HostError::DelegateCreationFailed(output.status))
        },
    }
}

/// Tells what the plain shutdown came to.
pub fn shutdown_result(outcome: Result<i32, LoadError>) -> (r: Result<(), HostError>)
    ensures
        r == shutdown_result_of(outcome),
{
    match outcome {
        Err(error) => Err(HostError::from_load_error(error)),
        Ok(status) => if status == 0 {
            Ok(())
        } else {
            Err(HostError::ShutdownFailed(status))
        },
    }
}

/// Tells what the shutdown that latches an exit code came to.
pub fn shutdown_2_result(outcome: Result<ShutdownOutput, LoadError>) -> (r: Result<
    Option<i32>,
    HostError,
>)
    ensures
        r == shutdown_2_result_of(outcome),
{
    match outcome {
        Err(error) => Err(HostError::from_load_error(error)),
        Ok(output) => if output.status == 0 {
            Ok(Some(output.latched_exit_code))
        } else {
            Err(HostError::ShutdownFailed(output.status))
        },
    }
}

/// A runtime whose entry points report success starts and stops at once,
/// whatever the property table holds, the empty table included, as long as
/// the inputs have a native form: initialization gives the pair that the
/// runtime wrote, either shutdown succeeds, the latched exit code comes back
/// as the runtime wrote it, and the two events bring a host from its first
/// state to its last.
pub proof fn lemma_initialize_then_stop(
    exe_path: Seq<char>,
    app_domain_name: Seq<char>,
    properties: Seq<(Seq<char>, Seq<char>)>,
    initialized: InitializeOutput,
    stopped: ShutdownOutput,
)
    requires
        initialize_encodable(exe_path, app_domain_name, properties),
        initialized.status == 0,
        stopped.status == 0,
    ensures
        initialize_encodable(exe_path, app_domain_name, Seq::empty()),
        initialize_answer(exe_path, app_domain_name, properties, Ok(initialized)) == Ok::<
            (HostHandle, DomainId),
            HostError,
        >((HostHandle(initialized.host_handle), DomainId(initialized.domain_id))),
        shutdown_result_of(Ok(stopped.status)) == Ok::<(), HostError>(()),
        shutdown_2_result_of(Ok(stopped)) == Ok::<Option<i32>, HostError>(
            Some(stopped.latched_exit_code),
        ),
        run(
            HostState::Uninitialized,
            seq![
                (HostEvent::Initialized {
                    host_handle: HostHandle(initialized.host_handle),
                    domain_id: DomainId(initialized.domain_id),
                }),
                HostEvent::Stopped,
            ],
        ) == Some(HostState::ShutDown),
{
    let first = HostEvent::Initialized {
        host_handle: HostHandle(initialized.host_handle),
        domain_id: DomainId(initialized.domain_id),
    };
    let events = seq![first, HostEvent::Stopped];
    let running = HostState::Running {
        host_handle: HostHandle(initialized.host_handle),
        domain_id: DomainId(initialized.domain_id),
    };
    assert(HostState::Uninitialized.after(events[0]) == Some(running));
    assert(events.drop_first() =~= seq![HostEvent::Stopped]);
    assert(running.after(events.drop_first()[0]) == Some(HostState::ShutDown));
    assert(events.drop_first().drop_first() =~= Seq::<HostEvent>::empty());
    reveal_with_fuel(run, 3);
}

/// A native status other than zero is the error of its operation, with the
/// status as it came, whatever else the runtime wrote: a failed
/// initialization gives no pair to go on with, and a failed run no exit
/// code.
pub proof fn lemma_status_is_error(
    initialized: InitializeOutput,
    executed: ExecuteOutput,
    created: DelegateOutput,
    stopped: ShutdownOutput,
)
    ensures
        initialized.status != 0 ==> initialize_result_of(Ok(initialized)) == Err::<
            (HostHandle, DomainId),
            HostError,
        >(HostError::InitializationFailed(initialized.status)),
        executed.status != 0 ==> execute_result_of(Ok(executed)) == Err::<u32, HostError>(
            HostError::ExecutionFailed(executed.status),
        ),
        created.status != 0 ==> delegate_result_of(Ok(created)) == Err::<
            DelegateHandle,
            HostError,
        >(HostError::DelegateCreationFailed(created.status)),
        stopped.status != 0 ==> shutdown_result_of(Ok(stopped.status)) == Err::<(), HostError>(
            HostError::ShutdownFailed(stopped.status),
        ),
        stopped.status != 0 ==> shutdown_2_result_of(Ok(stopped)) == Err::<
            Option<i32>,
            HostError,
        >(HostError::ShutdownFailed(stopped.status)),
{
}

/// The host of platforms that load the runtime as a shared library.
pub struct UnixCoreClrHost<R: NativeRuntime> {
    runtime: R,
}

impl<R: NativeRuntime> UnixCoreClrHost<R> {
    /// The entry points that the host calls.
    pub closed spec fn runtime(&self) -> R {
        self.runtime
    }

    /// The host over the entry points of `runtime`.
    pub fn new(runtime: R) -> (host: UnixCoreClrHost<R>)
        ensures
            host.runtime() == runtime,
    {
        UnixCoreClrHost { runtime }
    }
}

impl<R: NativeRuntime> ClrHost for UnixCoreClrHost<R> {
    fn initialize(
        &self,
        exe_path: &str,
        app_domain_name: &str,
        properties: &PropertyTable,
    ) -> (r: Result<(HostHandle, DomainId), HostError>)
        ensures
            exists|outcome: Result<InitializeOutput, LoadError>|
                r == #[trigger] initialize_answer(
                    exe_path@,
                    app_domain_name@,
                    properties@,
                    outcome,
                ),
    {
        match prepare_initialize(exe_path, app_domain_name, properties) {
            Ok(call) => {
                let outcome = self.runtime.coreclr_initialize(&call);
                let r = initialize_result(outcome);
                assert(r == initialize_answer(exe_path@, app_domain_name@, properties@, outcome));
                r
            },
            Err(error) => {
                assert(Err::<(HostHandle, DomainId), HostError>(error) == initialize_answer(
                    exe_path@,
                    app_domain_name@,
                    properties@,
                    Err(LoadError::LibraryNotFound),
                ));
                Err(error)
            },
        }
    }

    fn execute_assembly(
        &self,
        host_handle: HostHandle,
        domain_id: DomainId,
        args: &Vec<&str>,
        assembly_path: &str,
    ) -> (r: Result<u32, HostError>)
        ensures
            exists|outcome: Result<ExecuteOutput, LoadError>|
                r == #[trigger] execute_answer(texts_of(args@), assembly_path@, outcome),
    {
        match prepare_execute(host_handle, domain_id, args, assembly_path) {
            Ok(call) => {
                let outcome = self.runtime.coreclr_execute_assembly(&call);
                let r = execute_result(outcome);
                assert(r == execute_answer(texts_of(args@), assembly_path@, outcome));
                r
            },
            Err(error) => {
                assert(Err::<u32, HostError>(error) == execute_answer(
                    texts_of(args@),
                    assembly_path@,
                    Err(LoadError::LibraryNotFound),
                ));
                Err(error)
            },
        }
    }

    fn create_delegate(
        &self,
        host_handle: HostHandle,
        domain_id: DomainId,
        assembly_name: &str,
        class_name: &str,
        method_name: &str,
    ) -> (r: Result<DelegateHandle, HostError>)
        ensures
            exists|outcome: Result<DelegateOutput, LoadError>|
                r == #[trigger] delegate_answer(
                    assembly_name@,
                    class_name@,
                    method_name@,
                    outcome,
                ),
    {
        match prepare_delegate(host_handle, domain_id, assembly_name, class_name, method_name) {
            Ok(call) => {
                let outcome = self.runtime.coreclr_create_delegate(&call);
                let r = delegate_result(outcome);
                assert(r == delegate_answer(assembly_name@, class_name@, method_name@, outcome));
                r
            },
            Err(error) => {
                assert(Err::<DelegateHandle, HostError>(error) == delegate_answer(
                    assembly_name@,
                    class_name@,
                    method_name@,
                    Err(LoadError::LibraryNotFound),
                ));
                Err(error)
            },
        }
    }

    /// The shared library has no entry point to ask with: the one answer is
    /// the number that initialization gave.
    open spec fn domain_answer(
        &self,
        domain_id: DomainId,
        answer: Result<DomainId, HostError>,
    ) -> bool {
        answer == Ok::<DomainId, HostError>(domain_id)
    }

    /// The shared library has no entry point to ask with: the answer is the
    /// number that initialization gave.
    fn get_app_domain_id(&self, host_handle: HostHandle, domain_id: DomainId) -> (r: Result<
        DomainId,
        HostError,
    >)
        ensures
            r == Ok::<DomainId, HostError>(domain_id),
    {
        Ok(domain_id)
    }

    fn stop(self, host_handle: HostHandle, domain_id: DomainId) -> (r: Result<(), HostError>)
        ensures
            exists|outcome: Result<i32, LoadError>| r == #[trigger] shutdown_result_of(outcome),
    {
        let outcome = self.runtime.coreclr_shutdown(host_handle, domain_id);
        shutdown_result(outcome)
    }

    fn stop_with_exit_code(self, host_handle: HostHandle, domain_id: DomainId) -> (r: Result<
        Option<i32>,
        HostError,
    >)
        ensures
            exists|outcome: Result<ShutdownOutput, LoadError>|
                r == #[trigger] shutdown_2_result_of(outcome),
    {
        let outcome = self.runtime.coreclr_shutdown_2(host_handle, domain_id);
        shutdown_2_result(outcome)
    }
}

} // verus!
