//! The state engine of a Pomodoro-style focus timer: the phase state
//! machine, the coordinator that drives it and decides the side effects of
//! each transition, the focus-mode blocker as a step machine over the
//! operating-system work it asks for, the hosts-file text it writes, and the
//! session log with its daily statistics.

pub mod blocker;
pub mod coordinator;
pub mod hosts;
pub mod settings;
pub mod storage;
pub mod timer;
