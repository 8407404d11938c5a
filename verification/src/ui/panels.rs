//! The lines of each panel of the dashboard.

use crate::monitoring::cpu::{CpuInfo, CpuInfoView};
use crate::network::engine::{NetworkData, SnapshotView};
use crate::syst::infos::{SystemInfo, SystemInfoView};
use crate::text::{decimal, push_decimal};
use crate::ui::style::{colored_span, raw_span, Rgb, SpanView, StyledLine, StyledSpan};
use crate::ui::utils::{
    format_network_rate, format_network_total, info_line, info_line_spans, rate_text, total_text,
};
use vstd::prelude::*;
use vstd::string::StringExecFns;

verus! {

/// The nine lines that show one interface: a heading with its name, its MAC
/// and IP addresses, its two rates, its two totals, and a closing rule.
pub open spec fn interface_lines(d: SnapshotView) -> Seq<Seq<SpanView>> {
    seq![
        seq![
            raw_span("├"@),
            raw_span("───"@),
            colored_span(" "@ + d.interface + " "@, Rgb::violet(), true),
            raw_span("────────────────────"@),
            raw_span("┤"@),
        ],
        seq![
            raw_span("│ "@),
            colored_span("MAC: "@, Rgb::slate(), false),
            colored_span(d.mac_address, Rgb::green(), false),
        ],
        seq![
            raw_span("│ "@),
            colored_span("IP: "@, Rgb::slate(), false),
            colored_span(d.ip_network, Rgb::green(), false),
        ],
        seq![raw_span("├─ Transfer Rates ─┤"@)],
        seq![
            raw_span("│ "@),
            colored_span("↓ RX: "@, Rgb::green(), false),
            colored_span(rate_text(d.rx_rate as nat), Rgb::violet(), false),
            raw_span("  "@),
            colored_span("↑ TX: "@, Rgb::amber(), false),
            colored_span(rate_text(d.tx_rate as nat), Rgb::violet(), false),
        ],
        seq![raw_span("├─ Total Transfer ─┤"@)],
        seq![
            raw_span("│ "@),
            colored_span("↓ Total: "@, Rgb::green(), false),
            colored_span(total_text(d.total_received as nat), Rgb::violet(), false),
        ],
        seq![
            raw_span("│ "@),
            colored_span("↑ Total: "@, Rgb::amber(), false),
            colored_span(total_text(d.total_transmitted as nat), Rgb::violet(), false),
        ],
        seq![raw_span("├"@), raw_span("──────────────────────────────"@), raw_span("┤"@)],
    ]
}

/// The lines of the network panel: those of each interface, in order.
pub open spec fn network_lines(data: Seq<SnapshotView>) -> Seq<Seq<SpanView>>
    decreases data.len(),
{
    if data.len() == 0 {
        Seq::empty()
    } else {
        network_lines(data.drop_last()) + interface_lines(data.last())
    }
}

fn line1(a: StyledSpan) -> (line: StyledLine)
    ensures
        line.deep_view() == seq![a.deep_view()],
{
    let mut spans: Vec<StyledSpan> = Vec::new();
    spans.push(a);
    StyledLine { spans }
}

fn line3(a: StyledSpan, b: StyledSpan, c: StyledSpan) -> (line: StyledLine)
    ensures
        line.deep_view() == seq![a.deep_view(), b.deep_view(), c.deep_view()],
{
    let mut spans: Vec<StyledSpan> = Vec::new();
    spans.push(a);
    spans.push(b);
    spans.push(c);
    StyledLine { spans }
}

/// The lines that show one interface.
pub fn interface_info(d: &NetworkData) -> (lines: Vec<StyledLine>)
    ensures
        lines.deep_view() == interface_lines(d.deep_view()),
{
    let mut lines: Vec<StyledLine> = Vec::new();

    let mut name: String = " ".to_owned();
    name.append(d.interface.as_str());
    name.append(" ");
    let mut heading: Vec<StyledSpan> = Vec::new();
    heading.push(StyledSpan::plain("├"));
    heading.push(StyledSpan::plain("───"));
    heading.push(StyledSpan::colored(name, Rgb::violet(), true));
    heading.push(StyledSpan::plain("────────────────────"));
    heading.push(StyledSpan::plain("┤"));
    let heading = StyledLine { spans: heading };
    assert(heading.deep_view() =~= interface_lines(d.deep_view())[0]);
    lines.push(heading);

    lines.push(
        line3(
            StyledSpan::plain("│ "),
            StyledSpan::tinted("MAC: ", Rgb::slate()),
            StyledSpan::tinted(d.mac_address.as_str(), Rgb::green()),
        ),
    );
    lines.push(
        line3(
            StyledSpan::plain("│ "),
            StyledSpan::tinted("IP: ", Rgb::slate()),
            StyledSpan::tinted(d.ip_network.as_str(), Rgb::green()),
        ),
    );
    lines.push(line1(StyledSpan::plain("├─ Transfer Rates ─┤")));

    let mut rates: Vec<StyledSpan> = Vec::new();
    rates.push(StyledSpan::plain("│ "));
    rates.push(StyledSpan::tinted("↓ RX: ", Rgb::green()));
    rates.push(StyledSpan::colored(format_network_rate(d.rx_rate), Rgb::violet(), false));
    rates.push(StyledSpan::plain("  "));
    rates.push(StyledSpan::tinted("↑ TX: ", Rgb::amber()));
    rates.push(StyledSpan::colored(format_network_rate(d.tx_rate), Rgb::violet(), false));
    let rates = StyledLine { spans: rates };
    assert(rates.deep_view() =~= interface_lines(d.deep_view())[4]);
    lines.push(rates);

    lines.push(line1(StyledSpan::plain("├─ Total Transfer ─┤")));
    lines.push(
        line3(
            StyledSpan::plain("│ "),
            StyledSpan::tinted("↓ Total: ", Rgb::green()),
            StyledSpan::colored(format_network_total(d.total_received), Rgb::violet(), false),
        ),
    );
    lines.push(
        line3(
            StyledSpan::plain("│ "),
            StyledSpan::tinted("↑ Total: ", Rgb::amber()),
            StyledSpan::colored(format_network_total(d.total_transmitted), Rgb::violet(), false),
        ),
    );
    lines.push(
        line3(
            StyledSpan::plain("├"),
            StyledSpan::plain("──────────────────────────────"),
            StyledSpan::plain("┤"),
        ),
    );
    lines
}

/// The lines of the network panel for the interfaces `data`.
pub fn network_info(data: &Vec<NetworkData>) -> (lines: Vec<StyledLine>)
    ensures
        lines.deep_view() == network_lines(data.deep_view()),
{
    let ghost all = data.deep_view();
    let mut lines: Vec<StyledLine> = Vec::new();
    let mut i: usize = 0;
    while i < data.len()
        invariant
            i <= data.len(),
            all == data.deep_view(),
            lines.deep_view() == network_lines(all.take(i as int)),
        decreases data.len() - i,
    {
        let mut more = interface_info(&data[i]);
        lines.append(&mut more);
        assert(all.take(i + 1).drop_last() =~= all.take(i as int));
        i = i + 1;
    }
    assert(all.take(i as int) =~= all);
    lines
}

/// The text of `s` as the standard library's `Debug` formatting of strings
/// writes it: between double quotes, with what cannot be shown escaped.
pub uninterp spec fn debug_text(s: Seq<char>) -> Seq<char>;

/// `s` as `format!("{:?}", ..)` of the standard library writes a string.
#[verifier::external_body]
fn debug_string(s: &str) -> (quoted: String)
    ensures
        quoted@ == debug_text(s@),
{
    format!("{:?}", s)
}

/// An amount of memory, in whole mebibytes, as it is shown.
pub open spec fn memory_text(bytes: u64) -> Seq<char> {
    decimal((bytes / 1024 / 1024) as nat) + " MB"@
}

/// The five lines of the system panel: host name, operating system,
/// architecture (shown as `architecture`), kernel and memory.
pub open spec fn system_lines(info: SystemInfoView, architecture: Seq<char>) -> Seq<
    Seq<SpanView>,
> {
    seq![
        info_line_spans("Hostname"@, info.host_name, Rgb::rose()),
        info_line_spans("OS"@, info.os_name, Rgb::green()),
        info_line_spans("CPU Architecture"@, architecture, Rgb::amber()),
        info_line_spans("Kernel Version"@, info.kernel_version, Rgb::violet()),
        info_line_spans("Total Memory"@, memory_text(info.total_memory), Rgb::coral()),
    ]
}

/// The lines of the system panel, with the architecture shown as
/// `architecture`.
pub fn system_info_with(info: &SystemInfo, architecture: &str) -> (lines: Vec<StyledLine>)
    ensures
        lines.deep_view() == system_lines(info.deep_view(), architecture@),
{
    let mut memory = String::new();
    push_decimal(&mut memory, (info.total_memory / 1024 / 1024) as u128);
    memory.append(" MB");
    let mut lines: Vec<StyledLine> = Vec::new();
    lines.push(info_line("Hostname", info.host_name.as_str(), Rgb::rose()));
    lines.push(info_line("OS", info.os_name.as_str(), Rgb::green()));
    lines.push(info_line("CPU Architecture", architecture, Rgb::amber()));
    lines.push(info_line("Kernel Version", info.kernel_version.as_str(), Rgb::violet()));
    lines.push(info_line("Total Memory", memory.as_str(), Rgb::coral()));
    lines
}

/// The lines of the system panel. The architecture is shown as the
/// standard library's `Debug` formatting writes its name.
pub fn system_info(info: &SystemInfo) -> (lines: Vec<StyledLine>)
    ensures
        lines.deep_view() == system_lines(
            info.deep_view(),
            debug_text(info.cpu_architecture@),
        ),
{
    let architecture = debug_string(info.cpu_architecture.as_str());
    system_info_with(info, architecture.as_str())
}

/// The height of the CPU panel for `cores` cores: two lines for each and
/// two for the border, counted in sixteen bits, and no more than the
/// `available` height.
pub open spec fn panel_height(cores: nat, available: u16) -> u16 {
    let wanted = ((cores * 2 + 2) % 0x1_0000) as u16;
    if wanted <= available {
        wanted
    } else {
        available
    }
}

/// The height of the CPU panel.
pub fn cpu_panel_height(cores: usize, available: u16) -> (height: u16)
    ensures
        height == panel_height(cores as nat, available),
{
    let wanted: u16 = ((cores as u128 * 2 + 2) % 0x1_0000) as u16;
    if wanted <= available {
        wanted
    } else {
        available
    }
}

/// What the line of the core at position `index` begins with: its number,
/// written to the right of a width of two.
pub open spec fn core_label_text(index: nat) -> Seq<char> {
    if index < 10 {
        "│ Core  "@ + decimal(index) + " "@
    } else {
        "│ Core "@ + decimal(index) + " "@
    }
}

/// What the line of the core at position `index` begins with.
pub fn core_label(index: usize) -> (label: String)
    ensures
        label@ == core_label_text(index as nat),
{
    let mut label: String = if index < 10 {
        "│ Core  ".to_owned()
    } else {
        "│ Core ".to_owned()
    };
    push_decimal(&mut label, index as u128);
    label.append(" ");
    label
}

/// The second line of a core: its name and its clock frequency.
pub open spec fn core_detail_spans(core: CpuInfoView) -> Seq<SpanView> {
    seq![
        raw_span("│  "@),
        colored_span(
            core.name + " - "@ + decimal(core.frequency as nat) + " MHz"@,
            Rgb::slate(),
            false,
        ),
    ]
}

/// The second line of a core.
pub fn core_detail_line(core: &CpuInfo) -> (line: StyledLine)
    ensures
        line.deep_view() == core_detail_spans(core.deep_view()),
{
    let mut text: String = core.name.clone();
    text.append(" - ");
    push_decimal(&mut text, core.frequency as u128);
    text.append(" MHz");
    let mut spans: Vec<StyledSpan> = Vec::new();
    spans.push(StyledSpan::plain("│  "));
    spans.push(StyledSpan::colored(text, Rgb::slate(), false));
    StyledLine { spans }
}

} // verus!
