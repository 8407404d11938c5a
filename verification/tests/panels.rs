use hostmon::network::engine::NetworkData;
use hostmon::syst::infos::SystemInfo;
use hostmon::ui::app::{should_quit, KeyInput, EVENT_WAIT_MILLIS};
use hostmon::monitoring::cpu::CpuInfo;
use hostmon::ui::panels::{
    core_detail_line, core_label, cpu_panel_height, interface_info, network_info, system_info,
    system_info_with,
};
use hostmon::ui::style::{Rgb, StyledLine, StyledSpan};
use hostmon::ui::utils::info_line;

const SLATE: Rgb = Rgb { r: 169, g: 177, b: 214 };
const GREEN: Rgb = Rgb { r: 158, g: 206, b: 106 };
const AMBER: Rgb = Rgb { r: 224, g: 175, b: 104 };
const VIOLET: Rgb = Rgb { r: 187, g: 154, b: 247 };
const ROSE: Rgb = Rgb { r: 247, g: 118, b: 142 };
const CORAL: Rgb = Rgb { r: 239, g: 111, b: 111 };

fn spans(line: &StyledLine) -> Vec<(String, Option<Rgb>, bool)> {
    line.spans.iter().map(|s| (s.content.clone(), s.color, s.bold)).collect()
}

fn raw(text: &str) -> (String, Option<Rgb>, bool) {
    (text.to_string(), None, false)
}

fn tinted(text: &str, color: Rgb) -> (String, Option<Rgb>, bool) {
    (text.to_string(), Some(color), false)
}

fn bold(text: &str, color: Rgb) -> (String, Option<Rgb>, bool) {
    (text.to_string(), Some(color), true)
}

fn eth0() -> NetworkData {
    NetworkData {
        interface: "eth0".to_string(),
        mac_address: "aa:bb:cc:dd:ee:ff".to_string(),
        ip_network: "192.168.1.5/24".to_string(),
        total_received: 3000,
        total_transmitted: 1_500_000,
        rx_rate: 1000,
        tx_rate: 500,
    }
}

#[test]
fn palette_has_its_colours() {
    assert_eq!(Rgb::slate(), SLATE);
    assert_eq!(Rgb::green(), GREEN);
    assert_eq!(Rgb::amber(), AMBER);
    assert_eq!(Rgb::violet(), VIOLET);
    assert_eq!(Rgb::rose(), ROSE);
    assert_eq!(Rgb::coral(), CORAL);
}

#[test]
fn spans_keep_text_and_style() {
    let span = StyledSpan::raw("abc".to_string());
    assert_eq!((span.content.as_str(), span.color, span.bold), ("abc", None, false));
    let span = StyledSpan::plain("xyz");
    assert_eq!((span.content.as_str(), span.color, span.bold), ("xyz", None, false));
    let span = StyledSpan::colored("abc".to_string(), ROSE, true);
    assert_eq!((span.content.as_str(), span.color, span.bold), ("abc", Some(ROSE), true));
    let span = StyledSpan::tinted("abc", AMBER);
    assert_eq!((span.content.as_str(), span.color, span.bold), ("abc", Some(AMBER), false));
}

#[test]
fn info_line_has_lead_label_and_value() {
    let line = info_line("Hostname", "box", ROSE);
    assert_eq!(
        spans(&line),
        vec![raw("\u{e2}\u{201d}\u{201a} "), bold("Hostname: ", SLATE), bold("box", ROSE)]
    );
    let line = info_line("", "", GREEN);
    assert_eq!(spans(&line), vec![raw("\u{e2}\u{201d}\u{201a} "), bold(": ", SLATE), bold("", GREEN)]);
}

#[test]
fn interface_is_shown_in_nine_lines() {
    let lines = interface_info(&eth0());
    assert_eq!(lines.len(), 9);
    assert_eq!(
        spans(&lines[0]),
        vec![
            raw("├"),
            raw(&"─".repeat(3)),
            bold(" eth0 ", VIOLET),
            raw(&"─".repeat(20)),
            raw("┤"),
        ]
    );
    assert_eq!(
        spans(&lines[1]),
        vec![raw("│ "), tinted("MAC: ", SLATE), tinted("aa:bb:cc:dd:ee:ff", GREEN)]
    );
    assert_eq!(
        spans(&lines[2]),
        vec![raw("│ "), tinted("IP: ", SLATE), tinted("192.168.1.5/24", GREEN)]
    );
    assert_eq!(spans(&lines[3]), vec![raw("├─ Transfer Rates ─┤")]);
    assert_eq!(
        spans(&lines[4]),
        vec![
            raw("│ "),
            tinted("↓ RX: ", GREEN),
            tinted("1.00 KB/s", VIOLET),
            raw("  "),
            tinted("↑ TX: ", AMBER),
            tinted("500 B/s", VIOLET),
        ]
    );
    assert_eq!(spans(&lines[5]), vec![raw("├─ Total Transfer ─┤")]);
    assert_eq!(
        spans(&lines[6]),
        vec![raw("│ "), tinted("↓ Total: ", GREEN), tinted("3.00 KB", VIOLET)]
    );
    assert_eq!(
        spans(&lines[7]),
        vec![raw("│ "), tinted("↑ Total: ", AMBER), tinted("1.50 MB", VIOLET)]
    );
    assert_eq!(spans(&lines[8]), vec![raw("├"), raw(&"─".repeat(30)), raw("┤")]);
}

#[test]
fn network_panel_lists_interfaces_in_order() {
    assert!(network_info(&Vec::new()).is_empty());
    let mut wlan = eth0();
    wlan.interface = "wlan0".to_string();
    wlan.ip_network = "No IPv4".to_string();
    let lines = network_info(&vec![eth0(), wlan]);
    assert_eq!(lines.len(), 18);
    assert_eq!(spans(&lines[0])[2], bold(" eth0 ", VIOLET));
    assert_eq!(spans(&lines[9])[2], bold(" wlan0 ", VIOLET));
    assert_eq!(spans(&lines[11])[2], tinted("No IPv4", GREEN));
    for (i, line) in interface_info(&eth0()).iter().enumerate() {
        assert_eq!(spans(line), spans(&lines[i]));
    }
}

fn facts() -> SystemInfo {
    SystemInfo {
        host_name: "box".to_string(),
        os_name: "Linux".to_string(),
        cpu_architecture: "x86_64".to_string(),
        kernel_version: "6.1.0".to_string(),
        total_memory: 8 * 1024 * 1024 * 1024 + 1024 * 1024 - 1,
    }
}

#[test]
fn system_panel_has_five_labelled_lines() {
    let lines = system_info_with(&facts(), "arch");
    assert_eq!(lines.len(), 5);
    let lead = raw("\u{e2}\u{201d}\u{201a} ");
    assert_eq!(spans(&lines[0]), vec![lead.clone(), bold("Hostname: ", SLATE), bold("box", ROSE)]);
    assert_eq!(spans(&lines[1]), vec![lead.clone(), bold("OS: ", SLATE), bold("Linux", GREEN)]);
    assert_eq!(
        spans(&lines[2]),
        vec![lead.clone(), bold("CPU Architecture: ", SLATE), bold("arch", AMBER)]
    );
    assert_eq!(
        spans(&lines[3]),
        vec![lead.clone(), bold("Kernel Version: ", SLATE), bold("6.1.0", VIOLET)]
    );
    assert_eq!(
        spans(&lines[4]),
        vec![lead, bold("Total Memory: ", SLATE), bold("8192 MB", CORAL)]
    );
}

#[test]
fn system_panel_quotes_the_architecture() {
    let lines = system_info(&facts());
    assert_eq!(lines.len(), 5);
    assert_eq!(spans(&lines[2])[2], bold("\"x86_64\"", AMBER));
    let mut odd = facts();
    odd.cpu_architecture = "a\"b\\c\n".to_string();
    odd.total_memory = 1024 * 1024 - 1;
    let lines = system_info(&odd);
    assert_eq!(spans(&lines[2])[2], bold("\"a\\\"b\\\\c\\n\"", AMBER));
    assert_eq!(spans(&lines[4])[2], bold("0 MB", CORAL));
    assert_eq!(spans(&lines[0]), spans(&system_info_with(&odd, "")[0]));
}

#[test]
fn cpu_panel_height_is_two_lines_a_core_plus_border() {
    assert_eq!(cpu_panel_height(0, 40), 2);
    assert_eq!(cpu_panel_height(4, 40), 10);
    assert_eq!(cpu_panel_height(8, 18), 18);
    assert_eq!(cpu_panel_height(8, 17), 17);
    assert_eq!(cpu_panel_height(64, 40), 40);
    assert_eq!(cpu_panel_height(4, 0), 0);
    assert_eq!(cpu_panel_height(32767, u16::MAX), 0);
    assert_eq!(cpu_panel_height(32768, u16::MAX), 2);
    assert_eq!(cpu_panel_height(usize::MAX, u16::MAX), 0);
}

#[test]
fn only_a_press_of_q_quits() {
    assert_eq!(EVENT_WAIT_MILLIS, 250);
    assert!(should_quit(&Some(KeyInput { pressed: true, character: Some('q') })));
    assert!(!should_quit(&Some(KeyInput { pressed: false, character: Some('q') })));
    assert!(!should_quit(&Some(KeyInput { pressed: true, character: Some('Q') })));
    assert!(!should_quit(&Some(KeyInput { pressed: true, character: Some('x') })));
    assert!(!should_quit(&Some(KeyInput { pressed: true, character: None })));
    assert!(!should_quit(&None));
}

#[test]
fn core_label_pads_the_number_to_two_places() {
    assert_eq!(core_label(0), "│ Core  0 ");
    assert_eq!(core_label(9), "│ Core  9 ");
    assert_eq!(core_label(10), "│ Core 10 ");
    assert_eq!(core_label(127), "│ Core 127 ");
    assert_eq!(core_label(3), format!("│ Core {:2} ", 3));
}

#[test]
fn core_detail_line_names_the_core_and_its_clock() {
    let core = CpuInfo {
        index: 1,
        name: "cpu1".to_string(),
        usage_bits: 50.0f32.to_bits(),
        frequency: 3600,
    };
    assert_eq!(spans(&core_detail_line(&core)), vec![raw("│  "), tinted("cpu1 - 3600 MHz", SLATE)]);
    let core = CpuInfo { index: 0, name: String::new(), usage_bits: 0, frequency: 0 };
    assert_eq!(spans(&core_detail_line(&core)), vec![raw("│  "), tinted(" - 0 MHz", SLATE)]);
}
