pub mod color;
pub mod command;
pub mod constants;
pub mod endpoint;
pub mod error;
pub mod frame;
pub mod info;
pub mod locator;
pub mod setup;
pub mod transport;

pub use color::{get_led_color, LEDColors};
pub use command::{
    get_settings, set_blank, set_buzz_command, set_light_command, set_master_controls_command,
    set_volume_command,
};
pub use endpoint::{
    find_endpoint, find_readable_endpoints, negotiate_endpoint, ConfigDescriptor, Endpoint,
    Interface, InterfaceDescriptor,
};
pub use error::PatliteError;
pub use frame::{decode_alarm, decode_led, encode_alarm, encode_led, Data};
pub use info::{device_info_records, print_device_info};
pub use locator::{open_device, DeviceIds};
pub use setup::{
    advance, configure_endpoint, interface_to_release, setup_result, SetupAction, SetupState,
};
pub use transport::{read_interrupt, received, send_command, sent, InTransfer, OutTransfer};
