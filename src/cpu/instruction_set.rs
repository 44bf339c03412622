pub mod arithmetic;
pub mod branches;
pub mod increments_decrements;
pub mod jumps_calls;
pub mod load_store;
pub mod logical;
pub mod register_transfers;
pub mod shifts;
pub mod stack_operations;
pub mod status_flag_change;
pub mod system_functions;
