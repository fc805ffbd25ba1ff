//! Hosting the CLR: the capability set of a platform host, and the manager
//! that callers hold.

pub mod unix;
pub mod windows;

use crate::error::HostError;
use crate::marshal::{all_encodable, encodable, table_encodable, texts_of, MAX_NATIVE_COUNT};
use crate::properties::PropertyTable;
use crate::state::{DelegateHandle, DomainId, HostEvent, HostHandle, HostState, RuntimeSlot, SlotToken};
use core::marker::PhantomData;
use vstd::pervasive::unreached;
use vstd::prelude::*;

verus! {

/// True when the error says that the runtime, or the entry point that an
/// operation needs, could not be had.
pub open spec fn is_load_failure(error: HostError) -> bool {
    error is LibraryNotFound || error is SymbolNotFound || error is InterfaceUnavailable
}

/// True when `exe_path`, `app_domain_name` and all of `properties` have a
/// native form.
pub open spec fn initialize_encodable(
    exe_path: Seq<char>,
    app_domain_name: Seq<char>,
    properties: Seq<(Seq<char>, Seq<char>)>,
) -> bool {
    encodable(exe_path) && encodable(app_domain_name) && table_encodable(properties)
}

/// True when the arguments and the path of an assembly have a native form.
pub open spec fn execute_encodable(args: Seq<Seq<char>>, assembly_path: Seq<char>) -> bool {
    all_encodable(args) && encodable(assembly_path)
}

/// True when the three names of a managed method have a native form.
pub open spec fn delegate_encodable(
    assembly_name: Seq<char>,
    class_name: Seq<char>,
    method_name: Seq<char>,
) -> bool {
    encodable(assembly_name) && encodable(class_name) && encodable(method_name)
}

/// The entries of the table that `init` hands to the runtime: those of the
/// given table, or none.
pub open spec fn entries_or_none(properties_option: Option<PropertyTable>) -> Seq<
    (Seq<char>, Seq<char>),
> {
    match properties_option {
        Some(properties) => properties@,
        None => Seq::empty(),
    }
}

/// What a platform host can do. No operation repeats a native call; what
/// the runtime answers is handed on as it came, a status other than success
/// as the error of the operation.
pub trait ClrHost {
    /// Brings the runtime up. Strings that have no native form fail before
    /// anything native is touched.
    fn initialize(
        &self,
        exe_path: &str,
        app_domain_name: &str,
        properties: &PropertyTable,
    ) -> (r: Result<(HostHandle, DomainId), HostError>)
        ensures
            !initialize_encodable(exe_path@, app_domain_name@, properties@) ==> r == Err::<
                (HostHandle, DomainId),
                HostError,
            >(HostError::InvalidStringEncoding),
            initialize_encodable(exe_path@, app_domain_name@, properties@) ==> (r matches Err(e)
                ==> is_load_failure(e) || (e matches HostError::InitializationFailed(code)
                && code != 0)),
    ;

    /// Runs the entry point of a managed assembly and gives its exit code.
    fn execute_assembly(
        &self,
        host_handle: HostHandle,
        domain_id: DomainId,
        args: &Vec<&str>,
        assembly_path: &str,
    ) -> (r: Result<u32, HostError>)
        requires
            args@.len() <= MAX_NATIVE_COUNT,
        ensures
            !execute_encodable(texts_of(args@), assembly_path@) ==> r == Err::<u32, HostError>(
                HostError::InvalidStringEncoding,
            ),
            execute_encodable(texts_of(args@), assembly_path@) ==> (r matches Err(e)
                ==> is_load_failure(e) || (e matches HostError::ExecutionFailed(code) && code
                != 0)),
    ;

    /// Gets the token of a static managed method.
    fn create_delegate(
        &self,
        host_handle: HostHandle,
        domain_id: DomainId,
        assembly_name: &str,
        class_name: &str,
        method_name: &str,
    ) -> (r: Result<DelegateHandle, HostError>)
        ensures
            !delegate_encodable(assembly_name@, class_name@, method_name@) ==> r == Err::<
                DelegateHandle,
                HostError,
            >(HostError::InvalidStringEncoding),
            delegate_encodable(assembly_name@, class_name@, method_name@) ==> (r matches Err(e)
                ==> is_load_failure(e) || (e matches HostError::DelegateCreationFailed(code)
                && code != 0)),
    ;

    /// True when `answer` is what this host may say when it is asked for
    /// the application domain of a runtime whose initialization gave
    /// `domain_id`. A host that can ask the runtime says what the runtime
    /// told; a host that cannot says `domain_id` and nothing else. A host
    /// that tells nothing of its answers may give any.
    open spec fn domain_answer(
        &self,
        domain_id: DomainId,
        answer: Result<DomainId, HostError>,
    ) -> bool {
        true
    }

    /// The number of the application domain that runs. A platform that
    /// cannot ask the runtime answers with `domain_id`, the number that
    /// initialization gave.
    fn get_app_domain_id(&self, host_handle: HostHandle, domain_id: DomainId) -> (r: Result<
        DomainId,
        HostError,
    >)
        ensures
            self.domain_answer(domain_id, r),
            r matches Err(e) ==> is_load_failure(e) || (e matches HostError::InitializationFailed(
                code,
            ) && code != 0),
    ;

    /// Stops the runtime. The host is given up with the call: nothing can be
    /// asked of it afterwards, a second stop least of all.
    fn stop(self, host_handle: HostHandle, domain_id: DomainId) -> (r: Result<(), HostError>)
        ensures
            r matches Err(e) ==> is_load_failure(e) || (e matches HostError::ShutdownFailed(code)
                && code != 0),
    ;

    /// Stops the runtime and gives the exit code that it latched, where the
    /// platform has one. The host is given up with the call.
    fn stop_with_exit_code(self, host_handle: HostHandle, domain_id: DomainId) -> (r: Result<
        Option<i32>,
        HostError,
    >)
        ensures
            r matches Err(e) ==> is_load_failure(e) || (e matches HostError::ShutdownFailed(code)
                && code != 0),
    ;
}

/// A managed entry point, for as long as the host that made it is held.
pub struct CoreClrDelegate<'a> {
    pub delegate_handle: DelegateHandle,
    owner: PhantomData<&'a ()>,
}

impl<'a> CoreClrDelegate<'a> {
    /// The token of the entry point.
    pub closed spec fn spec_handle(&self) -> DelegateHandle {
        self.delegate_handle
    }

    /// The token of the entry point.
    #[verifier::when_used_as_spec(spec_handle)]
    pub fn handle(&self) -> (handle: DelegateHandle)
        ensures
            handle == self.spec_handle(),
    {
        self.delegate_handle
    }
}

/// A running runtime. The only way to one is [`CoreClr::init`], and the
/// only ways on are [`CoreClr::shutdown`] and [`CoreClr::shutdown_2`], which
/// take the value: a host that was stopped cannot be named again.
pub struct CoreClr<H: ClrHost> {
    host: H,
    state: HostState,
    token: SlotToken,
}

impl<H: ClrHost> CoreClr<H> {
    #[verifier::type_invariant]
    spec fn well_formed(&self) -> bool {
        self.state is Running
    }

    /// The state of the host.
    pub closed spec fn state(&self) -> HostState {
        self.state
    }

    /// The platform host that the manager works through.
    pub closed spec fn host(&self) -> H {
        self.host
    }

    /// Starts the runtime through `host` and takes `slot` for it. Without
    /// properties the runtime gets an empty table.
    ///
    /// While the slot is held nothing is tried and nothing changes. On a
    /// free slot, strings without a native form fail before anything native
    /// is touched, and strings in order never fail for their encoding: the
    /// answer is then the running manager, or the error of the platform
    /// host. Whatever fails, the slot is free again, so that nothing is left
    /// to shut down.
    pub fn init(
        host: H,
        slot: &mut RuntimeSlot,
        exe_path: &str,
        app_domain_friendly_name: &str,
        properties_option: Option<PropertyTable>,
    ) -> (r: Result<CoreClr<H>, HostError>)
        ensures
            old(slot).is_occupied() <==> (r matches Err(e) && e == HostError::AlreadyInitialized),
            old(slot).is_occupied() ==> *final(slot) == *old(slot),
            !old(slot).is_occupied() ==> (final(slot).is_occupied() <==> r is Ok),
            !old(slot).is_occupied() ==> (!initialize_encodable(
                exe_path@,
                app_domain_friendly_name@,
                entries_or_none(properties_option),
            ) <==> (r matches Err(e) && e == HostError::InvalidStringEncoding)),
            !old(slot).is_occupied() && initialize_encodable(
                exe_path@,
                app_domain_friendly_name@,
                entries_or_none(properties_option),
            ) ==> (r matches Err(e) ==> is_load_failure(e) || (e
                matches HostError::InitializationFailed(code) && code != 0)),
            r matches Ok(manager) ==> manager.host() == host && manager.state() is Running,
    {
        let token = match slot.acquire() {
            Ok(token) => token,
            Err(error) => {
                return Err(error);
            },
        };
        let properties = match properties_option {
            Some(properties) => properties,
            None => PropertyTable::new(),
        };
        let answer = host.initialize(exe_path, app_domain_friendly_name, &properties);
        Self::started(host, slot, token, answer)
    }

    /// Makes of the answer of the platform host what `init` gives back.
    /// The pair of a runtime that came up is the pair that the manager
    /// holds from then on, over `host` and with the slot as it is. The error
    /// of a runtime that did not come up is handed on as it came, and the
    /// slot that `token` held is free again.
    pub fn started(
        host: H,
        slot: &mut RuntimeSlot,
        token: SlotToken,
        answer: Result<(HostHandle, DomainId), HostError>,
    ) -> (r: Result<CoreClr<H>, HostError>)
        ensures
            answer matches Ok(pair) ==> (r matches Ok(manager) && manager.host() == host
                && manager.state() == (HostState::Running {
                host_handle: pair.0,
                domain_id: pair.1,
            }) && *final(slot) == *old(slot)),
            answer matches Err(error) ==> (r matches Err(e) && e == error
                && !final(slot).is_occupied()),
    {
        match answer {
            Ok((host_handle, domain_id)) => {
                let next = HostState::Uninitialized.on(
                    HostEvent::Initialized { host_handle, domain_id },
                );
                match next {
                    Some(state) => Ok(CoreClr { host, state, token }),
                    None => unreached(),
                }
            },
            Err(error) => {
                slot.release(token);
                Err(error)
            },
        }
    }

    /// Runs the entry point of the assembly at `managed_assembly_path` with
    /// `args`, and gives its exit code.
    pub fn execute_assembly(&self, args: Vec<&str>, managed_assembly_path: &str) -> (r: Result<
        u32,
        HostError,
    >)
        requires
            args@.len() <= MAX_NATIVE_COUNT,
        ensures
            !execute_encodable(texts_of(args@), managed_assembly_path@) ==> r == Err::<
                u32,
                HostError,
            >(HostError::InvalidStringEncoding),
            execute_encodable(texts_of(args@), managed_assembly_path@) ==> (r matches Err(e)
                ==> is_load_failure(e) || (e matches HostError::ExecutionFailed(code) && code
                != 0)),
    {
        proof {
            use_type_invariant(self);
        }
        match self.state.credentials() {
            Some((host_handle, domain_id)) => self.host.execute_assembly(
                host_handle,
                domain_id,
                &args,
                managed_assembly_path,
            ),
            None => unreached(),
        }
    }

    /// Gets the token of the static method `entry_point_method_name` of
    /// `entry_point_type_name` in `entry_point_assembly_name`.
    pub fn create_raw_delegate(
        &self,
        entry_point_assembly_name: &str,
        entry_point_type_name: &str,
        entry_point_method_name: &str,
    ) -> (r: Result<DelegateHandle, HostError>)
        ensures
            !delegate_encodable(
                entry_point_assembly_name@,
                entry_point_type_name@,
                entry_point_method_name@,
            ) ==> r == Err::<DelegateHandle, HostError>(HostError::InvalidStringEncoding),
            delegate_encodable(
                entry_point_assembly_name@,
                entry_point_type_name@,
                entry_point_method_name@,
            ) ==> (r matches Err(e) ==> is_load_failure(e) || (e
                matches HostError::DelegateCreationFailed(code) && code != 0)),
    {
        proof {
            use_type_invariant(self);
        }
        match self.state.credentials() {
            Some((host_handle, domain_id)) => self.host.create_delegate(
                host_handle,
                domain_id,
                entry_point_assembly_name,
                entry_point_type_name,
                entry_point_method_name,
            ),
            None => unreached(),
        }
    }

    /// As [`CoreClr::create_raw_delegate`], with the token bound to the
    /// borrow of the host: the host cannot be shut down while the delegate
    /// is held.
    pub fn create_delegate<'a>(
        &'a self,
        entry_point_assembly_name: &str,
        entry_point_type_name: &str,
        entry_point_method_name: &str,
    ) -> (r: Result<CoreClrDelegate<'a>, HostError>)
        ensures
            !delegate_encodable(
                entry_point_assembly_name@,
                entry_point_type_name@,
                entry_point_method_name@,
            ) ==> (r matches Err(e) && e == HostError::InvalidStringEncoding),
            delegate_encodable(
                entry_point_assembly_name@,
                entry_point_type_name@,
                entry_point_method_name@,
            ) ==> (r matches Err(e) ==> is_load_failure(e) || (e
                matches HostError::DelegateCreationFailed(code) && code != 0)),
    {
        self.delegate_of(
            self.create_raw_delegate(
                entry_point_assembly_name,
                entry_point_type_name,
                entry_point_method_name,
            ),
        )
    }

    /// Binds the token that the platform host gave to the borrow of the
    /// manager. The token is kept as it came, and so is an error.
    pub fn delegate_of<'a>(&'a self, answer: Result<DelegateHandle, HostError>) -> (r: Result<
        CoreClrDelegate<'a>,
        HostError,
    >)
        ensures
            answer matches Ok(handle) ==> (r matches Ok(delegate) && delegate.handle()
                == handle),
            answer matches Err(error) ==> (r matches Err(e) && e == error),
    {
        match answer {
            Ok(delegate_handle) => Ok(CoreClrDelegate { delegate_handle, owner: PhantomData }),
            Err(error) => Err(error),
        }
    }

    /// The number of the application domain that runs: what the platform
    /// host says when it is asked with the pair that the manager holds. Over
    /// a host that cannot ask the runtime, that is the number that
    /// initialization gave.
    pub fn get_app_domain_id(&self) -> (r: Result<DomainId, HostError>)
        ensures
            (self.state() is Running),
            self.host().domain_answer(self.state()->domain_id, r),
            r matches Err(e) ==> is_load_failure(e) || (e matches HostError::InitializationFailed(
                code,
            ) && code != 0),
    {
        proof {
            use_type_invariant(self);
        }
        match self.state.credentials() {
            Some((host_handle, domain_id)) => self.host.get_app_domain_id(host_handle, domain_id),
            None => unreached(),
        }
    }

    /// Stops the runtime and frees `slot`. The host is gone whatever the
    /// runtime answers.
    pub fn shutdown(self, slot: &mut RuntimeSlot) -> (r: Result<(), HostError>)
        ensures
            !final(slot).is_occupied(),
            r matches Err(e) ==> is_load_failure(e) || (e matches HostError::ShutdownFailed(code)
                && code != 0),
    {
        proof {
            use_type_invariant(&self);
        }
        let CoreClr { host, state, token } = self;
        let answer = match state.credentials() {
            Some((host_handle, domain_id)) => host.stop(host_handle, domain_id),
            None => unreached(),
        };
        slot.release(token);
        answer
    }

    /// As [`CoreClr::shutdown`], and gives the exit code that the runtime
    /// latched, where the platform has one.
    pub fn shutdown_2(self, slot: &mut RuntimeSlot) -> (r: Result<Option<i32>, HostError>)
        ensures
            !final(slot).is_occupied(),
            r matches Err(e) ==> is_load_failure(e) || (e matches HostError::ShutdownFailed(code)
                && code != 0),
    {
        proof {
            use_type_invariant(&self);
        }
        let CoreClr { host, state, token } = self;
        let answer = match state.credentials() {
            Some((host_handle, domain_id)) => host.stop_with_exit_code(host_handle, domain_id),
            None => unreached(),
        };
        slot.release(token);
        answer
    }
}

} // verus!
