pub mod cobject;
pub mod lifecycle;
pub mod panic;
pub mod ports;

pub use lifecycle::{
    initialize_dart_api_dl, DartRuntime, InitGate, InitializationFailed, UninitializedFunctionSlot,
    INIT_OK,
};
pub use ports::ILLEGAL_PORT;
