//! Outward-facing observation records emitted by the twin: exact transition records for the
//! ledger, and diagnostic records for operators.
pub mod diagnostic;
pub mod transition;

pub use diagnostic::{elapsed_since_session, DiagnosticKind, DiagnosticLevel, DiagnosticRecord};
pub use transition::{
    PublishedBcmContext, PublishedBcmState, PublishedDomainAction,
    PublishedFrontHeadlampIncompleteCause, PublishedFrontHeadlampSwitchDirection,
    PublishedFsmEvent, PublishedFsmState, PublishedHeadlampContext, PublishedHeadlampState,
    PublishedHealthContext, PublishedPowertrainContext, PublishedSccmContext,
    PublishedTransitionRecord, PublishedVehicleContext, PublishedVisibilityContext,
    PublishedWeatherContext, PublishedWheelRpm, PublishedWiperContext, PublishedWiperState,
    SessionClock, UnixTimestamp,
};
