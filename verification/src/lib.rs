//! Launch relay: the decision core of a single-instance desktop shell.
//!
//! The host runtime delivers two kinds of activation signals: the argument
//! list of a suppressed second launch, and a direct deep-link open. This
//! library decides what to do with each signal: which arguments count as
//! accepted deep-link URLs under the configured scheme set, and whether the
//! main window should be shown, focused, and sent the batch of accepted URLs.

pub mod relay;
pub mod schemes;
