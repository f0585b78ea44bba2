use vstd::prelude::*;

use crate::config::DriverConfig;
use crate::error::DriverError;

verus! {

/// What `install` asks the service-control facility to register: the config's
/// names and image path, as a kernel-driver service that starts on demand
/// with normal error control, no dependencies and no account credentials.
#[derive(Debug, Clone)]
pub struct ServiceRegistration {
    /// Service name, from the config.
    pub name: String,
    /// Display name, from the config's description.
    pub display_name: String,
    /// Path of the driver image the service runs.
    pub executable_path: String,
    /// The service is of kind "kernel driver".
    pub kernel_driver: bool,
    /// The service starts on demand, not at boot.
    pub start_on_demand: bool,
    /// The service's error control is "normal".
    pub error_control_normal: bool,
}

/// The service record that installing `config` registers.
pub fn registration_for(config: &DriverConfig) -> (r: ServiceRegistration)
    ensures
        r.name@ == config.service_name@,
        r.display_name@ == config.service_description@,
        r.executable_path@ == config.image_path@,
        r.kernel_driver,
        r.start_on_demand,
        r.error_control_normal,
{
    ServiceRegistration {
        name: config.service_name.clone(),
        display_name: config.service_description.clone(),
        executable_path: config.image_path.clone(),
        kernel_driver: true,
        start_on_demand: true,
        error_control_normal: true,
    }
}

/// The pending operating-system call of an install flow.
#[derive(Clone, Copy, Debug, PartialEq, Eq, Structural)]
pub enum InstallStep {
    /// Connect to the service-control facility.
    Connect,
    /// Register the service described by [`registration_for`].
    Create,
    /// Start the freshly registered service.
    Start,
}

/// The pending operating-system call of an uninstall flow.
#[derive(Clone, Copy, Debug, PartialEq, Eq, Structural)]
pub enum UninstallStep {
    /// Connect to the service-control facility.
    Connect,
    /// Open the existing service by its name.
    Open,
    /// Query the run state of the service.
    Query,
    /// Request that the service stop.
    Stop,
    /// Delete the service record.
    Delete,
}

/// What the host observed from the operating-system call of a step.
/// `StateStopped` and `StateActive` are the two answers of a successful
/// [`UninstallStep::Query`]; every other call succeeds or fails plainly.
#[derive(Clone, Copy, Debug, PartialEq, Eq, Structural)]
pub enum ServiceOutcome {
    /// The call completed.
    Succeeded,
    /// The call failed.
    Failed,
    /// The queried service is already stopped.
    StateStopped,
    /// The queried service is in some state other than stopped.
    StateActive,
}

/// Which outcomes a step of the install flow can report.
pub open spec fn install_outcome_fits(outcome: ServiceOutcome) -> bool {
    outcome is Succeeded || outcome is Failed
}

/// Which outcomes a step of the uninstall flow can report.
pub open spec fn uninstall_outcome_fits(step: UninstallStep, outcome: ServiceOutcome) -> bool {
    match step {
        UninstallStep::Query => outcome is Failed || outcome is StateStopped
            || outcome is StateActive,
        _ => outcome is Succeeded || outcome is Failed,
    }
}

/// Decides the install flow: connect, create, start, done.
///
/// Given the step just performed and its outcome, returns the next pending
/// step, `Ok(None)` when the flow is complete, or the error that ends it:
/// a failed connect is `ServiceManagerUnavailable`, a failed create is
/// `ServiceCreateFailed`, and a failed start is `ServiceStartFailed`. The
/// start is attempted unconditionally after a successful create, and a failed
/// start leaves the service registered — there is no rollback here; callers
/// wanting one run the uninstall flow themselves.
pub fn install_advance(step: InstallStep, outcome: ServiceOutcome) -> (r: Result<
    Option<InstallStep>,
    DriverError,
>)
    requires
        install_outcome_fits(outcome),
    ensures
        step is Connect && outcome is Succeeded ==> r == Ok::<_, DriverError>(
            Some(InstallStep::Create),
        ),
        step is Connect && outcome is Failed ==> r == Err::<Option<InstallStep>, _>(
            DriverError::ServiceManagerUnavailable,
        ),
        step is Create && outcome is Succeeded ==> r == Ok::<_, DriverError>(
            Some(InstallStep::Start),
        ),
        step is Create && outcome is Failed ==> r == Err::<Option<InstallStep>, _>(
            DriverError::ServiceCreateFailed,
        ),
        step is Start && outcome is Succeeded ==> r == Ok::<_, DriverError>(
            None::<InstallStep>,
        ),
        step is Start && outcome is Failed ==> r == Err::<Option<InstallStep>, _>(
            DriverError::ServiceStartFailed,
        ),
{
    match (step, outcome) {
        (InstallStep::Connect, ServiceOutcome::Succeeded) => Ok(Some(InstallStep::Create)),
        (InstallStep::Connect, _) => Err(DriverError::ServiceManagerUnavailable),
        (InstallStep::Create, ServiceOutcome::Succeeded) => Ok(Some(InstallStep::Start)),
        (InstallStep::Create, _) => Err(DriverError::ServiceCreateFailed),
        (InstallStep::Start, ServiceOutcome::Succeeded) => Ok(None),
        (InstallStep::Start, _) => Err(DriverError::ServiceStartFailed),
    }
}

/// Decides the uninstall flow: connect, open the service by name, query its
/// run state, stop it only when it is not already stopped, delete it.
///
/// Given the step just performed and its outcome, returns the next pending
/// step, `Ok(None)` when the record is deleted, or the error that ends the
/// flow: `ServiceManagerUnavailable`, `ServiceNotFound`, `ServiceQueryFailed`,
/// `ServiceStopFailed` or `ServiceDeleteFailed`, one per step. A query that
/// answers "already stopped" goes straight to the delete — the stop call is
/// never requested for a stopped service, so uninstalling one cannot fail on
/// the stop step.
pub fn uninstall_advance(step: UninstallStep, outcome: ServiceOutcome) -> (r: Result<
    Option<UninstallStep>,
    DriverError,
>)
    requires
        uninstall_outcome_fits(step, outcome),
    ensures
        step is Connect && outcome is Succeeded ==> r == Ok::<_, DriverError>(
            Some(UninstallStep::Open),
        ),
        step is Connect && outcome is Failed ==> r == Err::<Option<UninstallStep>, _>(
            DriverError::ServiceManagerUnavailable,
        ),
        step is Open && outcome is Succeeded ==> r == Ok::<_, DriverError>(
            Some(UninstallStep::Query),
        ),
        step is Open && outcome is Failed ==> r == Err::<Option<UninstallStep>, _>(
            DriverError::ServiceNotFound,
        ),
        step is Query && outcome is StateStopped ==> r == Ok::<_, DriverError>(
            Some(UninstallStep::Delete),
        ),
        step is Query && outcome is StateActive ==> r == Ok::<_, DriverError>(
            Some(UninstallStep::Stop),
        ),
        step is Query && outcome is Failed ==> r == Err::<Option<UninstallStep>, _>(
            DriverError::ServiceQueryFailed,
        ),
        step is Stop && outcome is Succeeded ==> r == Ok::<_, DriverError>(
            Some(UninstallStep::Delete),
        ),
        step is Stop && outcome is Failed ==> r == Err::<Option<UninstallStep>, _>(
            DriverError::ServiceStopFailed,
        ),
        step is Delete && outcome is Succeeded ==> r == Ok::<_, DriverError>(
            None::<UninstallStep>,
        ),
        step is Delete && outcome is Failed ==> r == Err::<Option<UninstallStep>, _>(
            DriverError::ServiceDeleteFailed,
        ),
{
    match (step, outcome) {
        (UninstallStep::Connect, ServiceOutcome::Succeeded) => Ok(Some(UninstallStep::Open)),
        (UninstallStep::Connect, _) => Err(DriverError::ServiceManagerUnavailable),
        (UninstallStep::Open, ServiceOutcome::Succeeded) => Ok(Some(UninstallStep::Query)),
        (UninstallStep::Open, _) => Err(DriverError::ServiceNotFound),
        (UninstallStep::Query, ServiceOutcome::StateStopped) => Ok(Some(UninstallStep::Delete)),
        (UninstallStep::Query, ServiceOutcome::StateActive) => Ok(Some(UninstallStep::Stop)),
        (UninstallStep::Query, _) => Err(DriverError::ServiceQueryFailed),
        (UninstallStep::Stop, ServiceOutcome::Succeeded) => Ok(Some(UninstallStep::Delete)),
        (UninstallStep::Stop, _) => Err(DriverError::ServiceStopFailed),
        (UninstallStep::Delete, ServiceOutcome::Succeeded) => Ok(None),
        (UninstallStep::Delete, _) => Err(DriverError::ServiceDeleteFailed),
    }
}

} // verus!
