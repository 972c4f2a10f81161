//! The logic of a starlight LED strip: the colour that is shared between tasks,
//! the twinkling pattern, the light messages that choose the colour, and the
//! decisions of the Wi-Fi and network tasks around it.
pub mod color;
pub mod patterns;
pub mod gamma;
pub mod light;
pub mod mqtt;
pub mod connection;
pub mod startup;
