pub mod send_verification_email;
pub mod verify_email;
pub mod complete;
pub mod initialize;
pub mod extend_completion_time;
pub mod extend_verification_time;
pub mod get_state_chain;
pub mod completion_timed_out;
pub mod delete;
