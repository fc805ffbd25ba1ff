//! Hosting the CLR through the COM interface of its runtime host.

use crate::error::HostError;
use crate::host::{delegate_encodable, execute_encodable, initialize_encodable, ClrHost};
use crate::marshal::{is_encodable, is_table_encodable, texts_of, MAX_NATIVE_COUNT};
use crate::properties::PropertyTable;
use crate::state::{DelegateHandle, DomainId, HostHandle};
use crate::wide::{
    all_wide_terminated, lemma_wide_array_terminated, lemma_wide_units_terminated, to_wide_args,
    to_wide_string, wide_array, wide_terminated, wide_units, WideString, WideStringArray,
};
use vstd::prelude::*;

verus! {

/// The identifier of a COM interface.
#[derive(Clone, Copy, Debug, PartialEq, Eq)]
pub struct InterfaceId {
    pub data1: u32,
    pub data2: u16,
    pub data3: u16,
    pub data4: [u8; 8],
}

/// The identifier of the base interface of the runtime host.
pub fn runtime_host_iid() -> (iid: InterfaceId)
    ensures
        iid.data1 == 0x90F1A06C,
        iid.data2 == 0x7712,
        iid.data3 == 0x4762,
        iid.data4@ == seq![0x86u8, 0xB5u8, 0x7Au8, 0x5Eu8, 0xBAu8, 0x6Bu8, 0xDBu8, 0x02u8],
{
    InterfaceId {
        data1: 0x90F1A06C,
        data2: 0x7712,
        data3: 0x4762,
        data4: [0x86, 0xB5, 0x7A, 0x5E, 0xBA, 0x6B, 0xDB, 0x02],
    }
}

/// The identifier of the extended interface, which adds running assemblies
/// and making delegates to the base.
pub fn runtime_host2_iid() -> (iid: InterfaceId)
    ensures
        iid.data1 == 0x712AB73F,
        iid.data2 == 0x2C22,
        iid.data3 == 0x4807,
        iid.data4@ == seq![0xADu8, 0x7Eu8, 0xF5u8, 0x01u8, 0xD7u8, 0xB7u8, 0x2Cu8, 0x2Du8],
{
    InterfaceId {
        data1: 0x712AB73F,
        data2: 0x2C22,
        data3: 0x4807,
        data4: [0xAD, 0x7E, 0xF5, 0x01, 0xD7, 0xB7, 0x2C, 0x2D],
    }
}

/// Which revision of the runtime host an object offers.
#[derive(Clone, Copy, Debug, PartialEq, Eq, Structural)]
pub enum InterfaceRevision {
    /// Start, stop, and the number of the current application domain.
    Base,
    /// The base, and running assemblies and making delegates.
    Extended,
}

/// What `get_current_app_domain_id` gave: its result code, and the number
/// that it wrote.
#[derive(Clone, Copy, Debug, PartialEq, Eq, Structural)]
pub struct DomainOutput {
    pub hresult: i32,
    pub app_domain_id: u32,
}

/// What `execute_assembly` gave.
#[derive(Clone, Copy, Debug, PartialEq, Eq, Structural)]
pub struct ExecuteOutput {
    pub hresult: i32,
    pub return_value: u32,
}

/// What `create_delegate` gave.
#[derive(Clone, Copy, Debug, PartialEq, Eq, Structural)]
pub struct DelegateOutput {
    pub hresult: i32,
    pub fn_ptr: usize,
}

/// The arguments of `execute_assembly`, owned until the call is over.
#[derive(Debug)]
pub struct ExecuteCall {
    pub app_domain_id: u32,
    pub assembly_path: WideString,
    pub argv: WideStringArray,
}

/// The arguments of `create_delegate`, owned until the call is over.
#[derive(Debug)]
pub struct DelegateCall {
    pub app_domain_id: u32,
    pub assembly_name: WideString,
    pub class_name: WideString,
    pub method_name: WideString,
}

impl ExecuteCall {
    /// True when the call is fit for native code: each string ends in its
    /// only zero unit.
    pub open spec fn well_formed(&self) -> bool {
        wide_terminated(self.assembly_path@) && all_wide_terminated(self.argv@)
    }

    /// True when the call hands over these inputs, each in its wide form
    /// and in its place.
    pub open spec fn carries(
        &self,
        domain_id: DomainId,
        args: Seq<Seq<char>>,
        assembly_path: Seq<char>,
    ) -> bool {
        &&& self.app_domain_id == domain_id.0
        &&& self.assembly_path@ == wide_units(assembly_path)
        &&& self.argv@ == wide_array(args)
    }

    /// The number of arguments, as native code takes it.
    pub fn argc(&self) -> (n: i32)
        ensures
            n == self.argv@.len(),
    {
        self.argv.count()
    }
}

impl DelegateCall {
    /// True when the call is fit for native code.
    pub open spec fn well_formed(&self) -> bool {
        &&& wide_terminated(self.assembly_name@)
        &&& wide_terminated(self.class_name@)
        &&& wide_terminated(self.method_name@)
    }

    /// True when the call hands over these inputs, each in its wide form
    /// and in its place.
    pub open spec fn carries(
        &self,
        domain_id: DomainId,
        assembly_name: Seq<char>,
        class_name: Seq<char>,
        method_name: Seq<char>,
    ) -> bool {
        &&& self.app_domain_id == domain_id.0
        &&& self.assembly_name@ == wide_units(assembly_name)
        &&& self.class_name@ == wide_units(class_name)
        &&& self.method_name@ == wide_units(method_name)
    }
}

/// The runtime host as COM offers it, each method one call through the
/// interface's table.
///
/// The strings of a call are borrowed from the call, which outlives the
/// native call: a pointer into them is good until the method returns, and
/// no longer.
pub trait RuntimeHostInterface {
    /// The revision that the object answers to.
    fn revision(&self) -> InterfaceRevision;

    /// Initializes the CLR into the process.
    fn start(&self) -> i32;

    /// Stops the execution of code by the runtime.
    fn stop(&self) -> i32;

    /// Gets the number of the application domain that runs.
    fn get_current_app_domain_id(&self) -> DomainOutput;

    /// Executes an assembly in the runtime.
    fn execute_assembly(&self, call: &ExecuteCall) -> ExecuteOutput
        requires
            call.well_formed(),
    ;

    /// Creates a delegate for a call into the runtime.
    fn create_delegate(&self, call: &DelegateCall) -> DelegateOutput
        requires
            call.well_formed(),
    ;
}

/// Makes the arguments of `execute_assembly`. One string with a NUL
/// character inside fails the call before it is made.
pub fn prepare_execute(domain_id: DomainId, args: &Vec<&str>, assembly_path: &str) -> (r: Result<
    ExecuteCall,
    HostError,
>)
    requires
        args@.len() <= MAX_NATIVE_COUNT,
    ensures
        execute_encodable(texts_of(args@), assembly_path@) ==> (r matches Ok(call)
            && call.carries(domain_id, texts_of(args@), assembly_path@) && call.well_formed()),
        !execute_encodable(texts_of(args@), assembly_path@) ==> (r matches Err(e) && e
            == HostError::InvalidStringEncoding),
{
    let argv = match to_wide_args(args) {
        Ok(argv) => argv,
        Err(error) => {
            return Err(error);
        },
    };
    let path_raw = match to_wide_string(assembly_path) {
        Ok(raw) => raw,
        Err(error) => {
            return Err(error);
        },
    };
    proof {
        lemma_wide_array_terminated(texts_of(args@));
        lemma_wide_units_terminated(assembly_path@);
    }
    Ok(ExecuteCall { app_domain_id: domain_id.0, assembly_path: path_raw, argv })
}

/// Makes the arguments of `create_delegate`.
pub fn prepare_delegate(
    domain_id: DomainId,
    assembly_name: &str,
    class_name: &str,
    method_name: &str,
) -> (r: Result<DelegateCall, HostError>)
    ensures
        delegate_encodable(assembly_name@, class_name@, method_name@) ==> (r matches Ok(call)
            && call.carries(domain_id, assembly_name@, class_name@, method_name@)
            && call.well_formed()),
        !delegate_encodable(assembly_name@, class_name@, method_name@) ==> (r matches Err(e)
            && e == HostError::InvalidStringEncoding),
{
    let assembly_raw = match to_wide_string(assembly_name) {
        Ok(raw) => raw,
        Err(error) => {
            return Err(error);
        },
    };
    let class_raw = match to_wide_string(class_name) {
        Ok(raw) => raw,
        Err(error) => {
            return Err(error);
        },
    };
    let method_raw = match to_wide_string(method_name) {
        Ok(raw) => raw,
        Err(error) => {
            return Err(error);
        },
    };
    proof {
        lemma_wide_units_terminated(assembly_name@);
        lemma_wide_units_terminated(class_name@);
        lemma_wide_units_terminated(method_name@);
    }
    Ok(
        DelegateCall {
            app_domain_id: domain_id.0,
            assembly_name: assembly_raw,
            class_name: class_raw,
            method_name: method_raw,
        },
    )
}

/// True when a COM result code reports success: when it is not negative.
pub open spec fn spec_succeeded(hresult: i32) -> bool {
    hresult >= 0
}

/// Tells whether a COM result code reports success.
#[verifier::when_used_as_spec(spec_succeeded)]
pub fn succeeded(hresult: i32) -> (yes: bool)
    ensures
        yes == spec_succeeded(hresult),
{
    hresult >= 0
}

/// What the check for the extended revision comes to.
pub open spec fn revision_result_of(revision: InterfaceRevision) -> Result<(), HostError> {
    match revision {
        InterfaceRevision::Extended => Ok(()),
        InterfaceRevision::Base => Err(HostError::InterfaceUnavailable),
    }
}

/// What starting the runtime comes to.
pub open spec fn start_result_of(hresult: i32) -> Result<(), HostError> {
    if succeeded(hresult) {
        Ok(())
    } else {
        Err(HostError::InitializationFailed(hresult))
    }
}

/// What asking for the application domain comes to.
pub open spec fn domain_result_of(output: DomainOutput) -> Result<DomainId, HostError> {
    if succeeded(output.hresult) {
        Ok(DomainId(output.app_domain_id))
    } else {
        Err(HostError::InitializationFailed(output.hresult))
    }
}

/// What running an assembly comes to.
pub open spec fn execute_result_of(output: ExecuteOutput) -> Result<u32, HostError> {
    if succeeded(output.hresult) {
        Ok(output.return_value)
    } else {
        Err(HostError::ExecutionFailed(output.hresult))
    }
}

/// What making a delegate comes to.
pub open spec fn delegate_result_of(output: DelegateOutput) -> Result<DelegateHandle, HostError> {
    if succeeded(output.hresult) {
        Ok(DelegateHandle(output.fn_ptr))
    } else {
        Err(HostError::DelegateCreationFailed(output.hresult))
    }
}

/// What stopping the runtime comes to.
pub open spec fn stop_result_of(hresult: i32) -> Result<(), HostError> {
    if succeeded(hresult) {
        Ok(())
    } else {
        Err(HostError::ShutdownFailed(hresult))
    }
}

/// What `initialize` answers on these inputs, given what starting the
/// runtime and asking for its domain gave. Where the start fails, nothing is
/// asked and `domain` does not count.
pub open spec fn initialize_answer(
    exe_path: Seq<char>,
    app_domain_name: Seq<char>,
    properties: Seq<(Seq<char>, Seq<char>)>,
    started: i32,
    domain: DomainOutput,
) -> Result<(HostHandle, DomainId), HostError> {
    if !initialize_encodable(exe_path, app_domain_name, properties) {
        Err(HostError::InvalidStringEncoding)
    } else if !succeeded(started) {
        Err(HostError::InitializationFailed(started))
    } else {
        match domain_result_of(domain) {
            Ok(domain_id) => Ok((HostHandle(0), domain_id)),
            Err(error) => Err(error),
        }
    }
}

/// What `execute_assembly` answers on these inputs, given what the call
/// gave.
pub open spec fn execute_answer(
    args: Seq<Seq<char>>,
    assembly_path: Seq<char>,
    output: ExecuteOutput,
) -> Result<u32, HostError> {
    if execute_encodable(args, assembly_path) {
        execute_result_of(output)
    } else {
        Err(HostError::InvalidStringEncoding)
    }
}

/// What `create_delegate` answers on these inputs, given what the call
/// gave.
pub open spec fn delegate_answer(
    assembly_name: Seq<char>,
    class_name: Seq<char>,
    method_name: Seq<char>,
    output: DelegateOutput,
) -> Result<DelegateHandle, HostError> {
    if delegate_encodable(assembly_name, class_name, method_name) {
        delegate_result_of(output)
    } else {
        Err(HostError::InvalidStringEncoding)
    }
}

/// What `stop_with_exit_code` answers, given what stopping gave: the
/// interface latches no exit code.
pub open spec fn stop_with_exit_code_answer(hresult: i32) -> Result<Option<i32>, HostError> {
    match stop_result_of(hresult) {
        Ok(()) => Ok(None),
        Err(error) => Err(error),
    }
}

/// Tells what the check for the extended revision came to.
pub fn revision_result(revision: InterfaceRevision) -> (r: Result<(), HostError>)
    ensures
        r == revision_result_of(revision),
{
    match revision {
        InterfaceRevision::Extended => Ok(()),
        InterfaceRevision::Base => Err(HostError::InterfaceUnavailable),
    }
}

/// Tells what starting the runtime came to.
pub fn start_result(hresult: i32) -> (r: Result<(), HostError>)
    ensures
        r == start_result_of(hresult),
{
    if succeeded(hresult) {
        Ok(())
    } else {
        Err(HostError::InitializationFailed(hresult))
    }
}

/// Tells what asking for the application domain came to.
pub fn domain_result(output: DomainOutput) -> (r: Result<DomainId, HostError>)
    ensures
        r == domain_result_of(output),
{
    if succeeded(output.hresult) {
        Ok(DomainId(output.app_domain_id))
    } else {
        Err(HostError::InitializationFailed(output.hresult))
    }
}

/// Tells what running an assembly came to.
pub fn execute_result(output: ExecuteOutput) -> (r: Result<u32, HostError>)
    ensures
        r == execute_result_of(output),
{
    if succeeded(output.hresult) {
        Ok(output.return_value)
    } else {
        Err(HostError::ExecutionFailed(output.hresult))
    }
}

/// Tells what making a delegate came to.
pub fn delegate_result(output: DelegateOutput) -> (r: Result<DelegateHandle, HostError>)
    ensures
        r == delegate_result_of(output),
{
    if succeeded(output.hresult) {
        Ok(DelegateHandle(output.fn_ptr))
    } else {
        Err(HostError::DelegateCreationFailed(output.hresult))
    }
}

/// Tells what stopping the runtime came to.
pub fn stop_result(hresult: i32) -> (r: Result<(), HostError>)
    ensures
        r == stop_result_of(hresult),
{
    if succeeded(hresult) {
        Ok(())
    } else {
        Err(HostError::ShutdownFailed(hresult))
    }
}

/// The Windows host: a wrapper around the runtime host's COM object, which
/// must answer to the extended revision.
pub struct WindowsCoreClrHost<I: RuntimeHostInterface> {
    runtime_host: I,
}

impl<I: RuntimeHostInterface> WindowsCoreClrHost<I> {
    /// The COM object that the host calls.
    pub closed spec fn runtime_host(&self) -> I {
        self.runtime_host
    }

    /// Wraps `runtime_host`, unless it offers the base revision only.
    pub fn new(runtime_host: I) -> (r: Result<WindowsCoreClrHost<I>, HostError>)
        ensures
            r matches Ok(host) ==> host.runtime_host() == runtime_host,
            r matches Err(e) ==> e == HostError::InterfaceUnavailable,
    {
        match revision_result(runtime_host.revision()) {
            Ok(()) => Ok(WindowsCoreClrHost { runtime_host }),
            Err(error) => Err(error),
        }
    }
}

impl<I: RuntimeHostInterface> ClrHost for WindowsCoreClrHost<I> {
    /// Starts the runtime and asks for its application domain. The
    /// interface takes no strings here; they are checked all the same, so
    /// that an input fails on every platform or on none. The interface
    /// gives no handle: the handle is zero. A runtime that started but does
    /// not tell its domain is stopped again.
    fn initialize(
        &self,
        exe_path: &str,
        app_domain_name: &str,
        properties: &PropertyTable,
    ) -> (r: Result<(HostHandle, DomainId), HostError>)
        ensures
            exists|started: i32, domain: DomainOutput|
                r == #[trigger] initialize_answer(
                    exe_path@,
                    app_domain_name@,
                    properties@,
                    started,
                    domain,
                ),
    {
        let ghost unasked = DomainOutput { hresult: 0, app_domain_id: 0 };
        if !is_encodable(exe_path) || !is_encodable(app_domain_name) || !is_table_encodable(
            properties,
        ) {
            assert(Err::<(HostHandle, DomainId), HostError>(HostError::InvalidStringEncoding)
                == initialize_answer(exe_path@, app_domain_name@, properties@, 0, unasked));
            return Err(HostError::InvalidStringEncoding);
        }
        let started = self.runtime_host.start();
        match start_result(started) {
            Ok(()) => {},
            Err(error) => {
                assert(Err::<(HostHandle, DomainId), HostError>(error) == initialize_answer(
                    exe_path@,
                    app_domain_name@,
                    properties@,
                    started,
                    unasked,
                ));
                return Err(error);
            },
        }
        let domain = self.runtime_host.get_current_app_domain_id();
        let r = match domain_result(domain) {
            Ok(domain_id) => Ok((HostHandle(0), domain_id)),
            Err(error) => {
                let _ = self.runtime_host.stop();
                Err(error)
            },
        };
        assert(r == initialize_answer(exe_path@, app_domain_name@, properties@, started, domain));
        r
    }

    fn execute_assembly(
        &self,
        host_handle: HostHandle,
        domain_id: DomainId,
        args: &Vec<&str>,
        assembly_path: &str,
    ) -> (r: Result<u32, HostError>)
        ensures
            exists|output: ExecuteOutput|
                r == #[trigger] execute_answer(texts_of(args@), assembly_path@, output),
    {
        match prepare_execute(domain_id, args, assembly_path) {
            Ok(call) => {
                let output = self.runtime_host.execute_assembly(&call);
                let r = execute_result(output);
                assert(r == execute_answer(texts_of(args@), assembly_path@, output));
                r
            },
            Err(error) => {
                assert(Err::<u32, HostError>(error) == execute_answer(
                    texts_of(args@),
                    assembly_path@,
                    (ExecuteOutput { hresult: 0, return_value: 0 }),
                ));
                Err(error)
            },
        }
    }

    fn create_delegate(
        &self,
        host_handle: HostHandle,
        domain_id: DomainId,
        assembly_name: &str,
        class_name: &str,
        method_name: &str,
    ) -> (r: Result<DelegateHandle, HostError>)
        ensures
            exists|output: DelegateOutput|
                r == #[trigger] delegate_answer(
                    assembly_name@,
                    class_name@,
                    method_name@,
                    output,
                ),
    {
        match prepare_delegate(domain_id, assembly_name, class_name, method_name) {
            Ok(call) => {
                let output = self.runtime_host.create_delegate(&call);
                let r = delegate_result(output);
                assert(r == delegate_answer(assembly_name@, class_name@, method_name@, output));
                r
            },
            Err(error) => {
                assert(Err::<DelegateHandle, HostError>(error) == delegate_answer(
                    assembly_name@,
                    class_name@,
                    method_name@,
                    (DelegateOutput { hresult: 0, fn_ptr: 0 }),
                ));
                Err(error)
            },
        }
    }

    /// The answer is what asking the runtime comes to, whatever number
    /// initialization gave.
    open spec fn domain_answer(
        &self,
        domain_id: DomainId,
        answer: Result<DomainId, HostError>,
    ) -> bool {
        exists|output: DomainOutput| answer == #[trigger] domain_result_of(output)
    }

    fn get_app_domain_id(&self, host_handle: HostHandle, domain_id: DomainId) -> (r: Result<
        DomainId,
        HostError,
    >)
        ensures
            exists|output: DomainOutput| r == #[trigger] domain_result_of(output),
    {
        domain_result(self.runtime_host.get_current_app_domain_id())
    }

    fn stop(self, host_handle: HostHandle, domain_id: DomainId) -> (r: Result<(), HostError>)
        ensures
            exists|hresult: i32| r == #[trigger] stop_result_of(hresult),
    {
        stop_result(self.runtime_host.stop())
    }

    /// The interface latches no exit code: a runtime that stopped gives
    /// `None`.
    fn stop_with_exit_code(self, host_handle: HostHandle, domain_id: DomainId) -> (r: Result<
        Option<i32>,
        HostError,
    >)
        ensures
            exists|hresult: i32| r == #[trigger] stop_with_exit_code_answer(hresult),
    {
        let hresult = self.runtime_host.stop();
        let r = match stop_result(hresult) {
            Ok(()) => Ok(None),
            Err(error) => Err(error),
        };
        assert(r == stop_with_exit_code_answer(hresult));
        r
    }
}

/// A runtime host whose calls report success starts and stops at once,
/// whatever the property table holds, as long as the inputs have a native
/// form; the handle is zero and the domain is the one that the runtime
/// told.
pub proof fn lemma_initialize_then_stop(
    exe_path: Seq<char>,
    app_domain_name: Seq<char>,
    properties: Seq<(Seq<char>, Seq<char>)>,
    started: i32,
    domain: DomainOutput,
    stopped: i32,
)
    requires
        initialize_encodable(exe_path, app_domain_name, properties),
        succeeded(started),
        succeeded(domain.hresult),
        succeeded(stopped),
    ensures
        initialize_answer(exe_path, app_domain_name, properties, started, domain) == Ok::<
            (HostHandle, DomainId),
            HostError,
        >((HostHandle(0), DomainId(domain.app_domain_id))),
        stop_result_of(stopped) == Ok::<(), HostError>(()),
        stop_with_exit_code_answer(stopped) == Ok::<Option<i32>, HostError>(None),
{
}

} // verus!
