//! Control logic of a simple LV2 amplifier plugin with a level meter and of
//! its user interface: port bookkeeping, the handshake between plugin and
//! user interface, and the state of the interface's widgets.

pub mod ports;
pub mod control;
pub mod button;
pub mod root_widget;
pub mod ui_ports;
