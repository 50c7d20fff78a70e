//! Services of the manager: the registries and the task handles behind them.

pub mod service_info;
