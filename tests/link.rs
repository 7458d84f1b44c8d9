use serial_link::board::{get_board_variants, BoardVariant, Capability};
use serial_link::device::{
    get_device_variants, DeploymentSettings, DeviceError, DeviceSettings, EntanglerSettings,
    LoRaSettings, WarpSettings,
};
use serial_link::framing::split_lines;
use serial_link::protocol::{ChunkBytes, ChunkText, Protocol, ProtocolTrait};
use serial_link::serial::{
    get_ports, LinkError, PollEvent, PortEntry, ReadOutcome, SerialData, SerialSettings,
};
use serial_link::state::AppData;

struct Shout;

impl ProtocolTrait for Shout {
    fn decoded(&self, _bytes: ChunkBytes) -> ChunkText {
        panic!("a specification function is not run")
    }

    fn parse_to_string(&self, bytes: &[u8]) -> String {
        String::from_utf8_lossy(bytes).to_uppercase()
    }
}

fn strings(v: &[&str]) -> Vec<String> {
    v.iter().map(|s| s.to_string()).collect()
}

fn connected(name: &str) -> SerialData<u8, Protocol> {
    let mut link: SerialData<u8, Protocol> = SerialData::new(SerialSettings { baud_rate: 9600 });
    let r = link.attach_port(name, Ok((1, Some(name.to_string()))));
    assert_eq!(r, Ok(name.to_string()));
    link
}

#[test]
fn poll_frames_three_lines_in_order() {
    let mut link = connected("/dev/ttyUSB0");
    let ev = link.poll_step(ReadOutcome::Data(b"A\nB\nC\n".to_vec()));
    assert_eq!(ev, PollEvent::Lines(strings(&["A", "B", "C"])));
    assert_eq!(link.get_serial_content(), strings(&["A", "B", "C"]));
}

#[test]
fn poll_keeps_order_across_steps() {
    let mut link = connected("COM3");
    link.poll_step(ReadOutcome::Data(b"one\ntwo".to_vec()));
    link.poll_step(ReadOutcome::Data(b"three\n".to_vec()));
    assert_eq!(link.get_serial_content(), strings(&["one", "two", "three"]));
}

#[test]
fn poll_uses_bound_decoder() {
    let mut link: SerialData<u8, Shout> = SerialData::new(SerialSettings { baud_rate: 115200 });
    link.attach_port("p", Ok((0, None))).unwrap();
    link.set_protocol(Some(Shout));
    let ev = link.poll_step(ReadOutcome::Data(b"ab\ncd".to_vec()));
    assert_eq!(ev, PollEvent::Lines(strings(&["AB", "CD"])));
    link.set_protocol(None);
    let ev = link.poll_step(ReadOutcome::Data(b"ef\n".to_vec()));
    assert_eq!(ev, PollEvent::Lines(strings(&["ef"])));
    assert_eq!(link.get_serial_content(), strings(&["AB", "CD", "ef"]));
}

#[test]
fn poll_replaces_invalid_utf8() {
    let mut link = connected("p");
    let ev = link.poll_step(ReadOutcome::Data(vec![b'x', 0xFF, b'\n']));
    assert_eq!(ev, PollEvent::Lines(strings(&["x\u{FFFD}"])));
    assert_eq!(link.decode(&[0xC3, 0xA9]), "\u{e9}".to_string());
}

#[test]
fn poll_broken_pipe_disconnects_once() {
    let mut link = connected("p");
    assert_eq!(link.poll_step(ReadOutcome::Disconnected), PollEvent::Disconnected);
    assert!(!link.is_connected());
    assert_eq!(link.get_active_port(), "");
    assert_eq!(link.poll_step(ReadOutcome::Disconnected), PollEvent::Idle);
    assert_eq!(link.poll_step(ReadOutcome::Data(b"late\n".to_vec())), PollEvent::Idle);
    assert!(link.get_serial_content().is_empty());
}

#[test]
fn poll_timeout_and_other_errors_keep_link() {
    let mut link = connected("p");
    assert_eq!(link.poll_step(ReadOutcome::TimedOut), PollEvent::Idle);
    assert_eq!(
        link.poll_step(ReadOutcome::Failed("framing error".to_string())),
        PollEvent::Fault("framing error".to_string())
    );
    assert!(link.is_connected());
    assert!(link.get_serial_content().is_empty());
}

#[test]
fn poll_without_port_is_idle() {
    let mut link: SerialData<u8, Protocol> = SerialData::new(SerialSettings::default());
    assert_eq!(link.poll_step(ReadOutcome::Data(b"x\n".to_vec())), PollEvent::Idle);
    assert!(link.get_serial_content().is_empty());
}

#[test]
fn split_lines_edge_cases() {
    assert!(split_lines("").is_empty());
    assert_eq!(split_lines("abc"), strings(&["abc"]));
    assert_eq!(split_lines("\n"), strings(&[""]));
    assert_eq!(split_lines("a\n\nb"), strings(&["a", "", "b"]));
    assert_eq!(split_lines("é\nü\n"), strings(&["é", "ü"]));
}

#[test]
fn open_reports_resolved_name_or_unknown() {
    let mut link: SerialData<u8, Protocol> = SerialData::new(SerialSettings { baud_rate: 9600 });
    assert_eq!(link.attach_port("x", Ok((3, None))), Ok("Unknown".to_string()));
    assert_eq!(link.get_active_port(), "Unknown");
}

#[test]
fn open_supersedes_previous_port() {
    let mut link = connected("first");
    link.close_port();
    link.attach_port("second", Ok((2, Some("second".to_string())))).unwrap();
    assert_eq!(link.connected_port.as_ref().map(|p| p.handle), Some(2));
    assert_eq!(link.get_active_port(), "second");
}

#[test]
fn open_failure_leaves_link_disconnected() {
    let mut link = connected("first");
    let r = link.attach_port("/dev/missing", Err("No such file".to_string()));
    assert_eq!(
        r,
        Err(LinkError::OpenFailed {
            port: "/dev/missing".to_string(),
            cause: "No such file".to_string()
        })
    );
    assert!(!link.is_connected());
}

#[test]
fn set_baud_rate_disconnected_only_stores_rate() {
    let mut link: SerialData<u8, Protocol> = SerialData::new(SerialSettings { baud_rate: 9600 });
    assert_eq!(link.set_baud_rate(57600), None);
    assert_eq!(link.settings.baud_rate, 57600);
    assert!(!link.is_connected());
}

#[test]
fn set_baud_rate_connected_reopens_same_name() {
    let mut link = connected("/dev/ttyACM0");
    let name = link.set_baud_rate(115200);
    assert_eq!(name, Some("/dev/ttyACM0".to_string()));
    assert!(!link.is_connected());
    assert_eq!(link.settings.baud_rate, 115200);
    let r = link.attach_port("/dev/ttyACM0", Ok((9, Some("/dev/ttyACM0".to_string()))));
    assert_eq!(r, Ok("/dev/ttyACM0".to_string()));
    let mut other = connected("/dev/ttyACM1");
    other.set_baud_rate(300).unwrap();
    assert!(other.attach_port("/dev/ttyACM1", Err("busy".to_string())).is_err());
    assert!(!other.is_connected());
}

#[test]
fn outgoing_line_needs_port() {
    let link: SerialData<u8, Protocol> = SerialData::new(SerialSettings::default());
    assert_eq!(link.outgoing_line("ping"), Err(LinkError::NoPortConnected));
    let link = connected("p");
    assert_eq!(link.outgoing_line("ping"), Ok("ping\n".to_string()));
}

#[test]
fn clear_then_get_is_empty() {
    let mut link = connected("p");
    link.poll_step(ReadOutcome::Data(b"a\nb\n".to_vec()));
    link.clear_serial_content();
    assert!(link.get_serial_content().is_empty());
    link.clear_serial_content();
    assert!(link.get_serial_content().is_empty());
    assert!(link.is_connected());
}

#[test]
fn get_ports_keeps_usb_only() {
    let ports = vec![
        PortEntry { name: "/dev/ttyS0".to_string(), usb: false },
        PortEntry { name: "/dev/ttyUSB0".to_string(), usb: true },
        PortEntry { name: "/dev/ttyACM0".to_string(), usb: true },
    ];
    assert_eq!(get_ports(&ports), strings(&["/dev/ttyUSB0", "/dev/ttyACM0"]));
}

fn warp_default() -> DeviceSettings {
    DeviceSettings::Warp(WarpSettings {
        deployment: DeploymentSettings {
            apogee: false,
            main: false,
            apogee_delay_bits: 0,
            main_altitude_bits: 0,
        },
    })
}

#[test]
fn select_warp_then_get_defaults() {
    let mut app: AppData<u8, Protocol> = AppData::new(SerialSettings::default());
    assert_eq!(app.get_device_settings(), Err(DeviceError::NoDeviceSelected));
    app.set_device_variant("Warp").unwrap();
    assert_eq!(app.get_device_settings(), Ok(warp_default()));
    assert_eq!(app.get_device_settings(), Ok(DeviceSettings::Warp(WarpSettings::default())));
}

#[test]
fn select_unknown_keeps_settings() {
    let mut app: AppData<u8, Protocol> = AppData::new(SerialSettings::default());
    app.set_device_variant("Entangler").unwrap();
    assert_eq!(
        app.set_device_variant("Unknown"),
        Err(DeviceError::UnknownVariant("Unknown".to_string()))
    );
    assert_eq!(
        app.get_device_settings(),
        Ok(DeviceSettings::Entangler(EntanglerSettings::default()))
    );
}

#[test]
fn set_device_settings_checks_tag() {
    let mut app: AppData<u8, Protocol> = AppData::new(SerialSettings::default());
    assert_eq!(app.set_device_settings(warp_default()), Err(DeviceError::NoDeviceSelected));
    app.set_device_variant("Entangler").unwrap();
    assert_eq!(app.set_device_settings(warp_default()), Err(DeviceError::VariantMismatch));
    let tuned = DeviceSettings::Entangler(EntanglerSettings {
        lora: LoRaSettings {
            frequency: 915_000_000,
            bandwidth: 125_000,
            spreading_factor: 7,
            sync_word: 0x12,
            coding_rate: 5,
        },
    });
    assert_eq!(app.set_device_settings(tuned), Ok(()));
    assert_eq!(app.get_device_settings(), Ok(tuned));
}

#[test]
fn transfer_needs_connection_then_not_implemented() {
    let mut app: AppData<u8, Protocol> = AppData::new(SerialSettings::default());
    assert_eq!(app.upload_device_settings(warp_default()), Err(DeviceError::NoDeviceConnected));
    assert_eq!(app.download_device_settings(), Err(DeviceError::NoDeviceConnected));
    app.serial.attach_port("p", Ok((1, None))).unwrap();
    assert_eq!(app.upload_device_settings(warp_default()), Err(DeviceError::NotImplemented));
    assert_eq!(app.download_device_settings(), Err(DeviceError::NotImplemented));
}

#[test]
fn board_variant_selection() {
    let mut app: AppData<u8, Protocol> = AppData::new(SerialSettings { baud_rate: 4800 });
    assert_eq!(app.get_board_variant(), Err(DeviceError::NoDeviceSelected));
    app.set_board_variant(BoardVariant::Warp);
    assert_eq!(app.get_board_variant(), Ok(BoardVariant::Warp));
    assert_eq!(app.get_serial_settings(), SerialSettings { baud_rate: 4800 });
    app.set_serial_settings(SerialSettings { baud_rate: 19200 });
    assert_eq!(app.get_serial_settings().baud_rate, 19200);
}

#[test]
fn capabilities_per_variant() {
    assert_eq!(BoardVariant::Entangler.get_capabilities(), vec![Capability::GPS, Capability::LoRa]);
    assert_eq!(BoardVariant::Warp.get_capabilities(), vec![Capability::GPS, Capability::Ejection]);
    assert!(BoardVariant::Default.get_capabilities().is_empty());
}

#[test]
fn variant_lists() {
    assert_eq!(
        get_board_variants(),
        vec![BoardVariant::Entangler, BoardVariant::Warp, BoardVariant::Default]
    );
    assert_eq!(
        get_device_variants(),
        vec![DeviceSettings::Entangler(EntanglerSettings::default()), warp_default()]
    );
    assert_eq!(DeviceSettings::for_variant("Warp"), Some(warp_default()));
    assert_eq!(DeviceSettings::for_variant("warp"), None);
}

#[test]
fn set_baud_rate_reopens_by_opened_identifier() {
    let mut link: SerialData<u8, Protocol> = SerialData::new(SerialSettings { baud_rate: 9600 });
    link.attach_port("/dev/ttyUSB3", Ok((4, None))).unwrap();
    assert_eq!(link.get_active_port(), "Unknown");
    assert_eq!(link.set_baud_rate(38400), Some("/dev/ttyUSB3".to_string()));
    assert!(link.connected_port.is_none());
    link.attach_port("/dev/ttyUSB3", Ok((5, Some("/dev/ttyUSB3".to_string())))).unwrap();
    assert_eq!(link.connected_port.as_ref().map(|p| p.handle), Some(5));
    assert_eq!(link.settings.baud_rate, 38400);
}

#[test]
fn poll_timeout_keeps_handle() {
    let mut link = connected("p");
    link.poll_step(ReadOutcome::TimedOut);
    link.poll_step(ReadOutcome::Failed("parity".to_string()));
    link.clear_serial_content();
    assert_eq!(link.connected_port.as_ref().map(|p| p.handle), Some(1));
}
