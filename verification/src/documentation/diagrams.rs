//! Diagrams of processes: an SVG picture or a plain text outline.
use vstd::prelude::*;
use crate::bpmn::process::{Gateway, Process, Task};
use crate::escape::escape_xml_spec;
use crate::text::{decimal, i128_to_decimal, signed_decimal, u64_to_decimal};

verus! {

/// The kinds of diagram.
#[derive(Debug, Clone, Copy, PartialEq, Eq, Structural)]
pub enum DiagramFormat {
    Svg,
    Ascii,
}

/// Draws diagrams of processes in one format.
pub struct DiagramGenerator {
    pub format: DiagramFormat,
}

/// A start event: a circle with its label below.
pub open spec fn start_event_svg(x: int, y: int, label: Seq<char>) -> Seq<char> {
    "<circle cx=\""@ + signed_decimal(x) + "\" cy=\""@ + signed_decimal(y) + "\" r=\"20\" class=\"event\"/>\n            <text x=\""@ + signed_decimal(x) + "\" y=\""@ + signed_decimal(y + 35) + "\" text-anchor=\"middle\" class=\"label\">"@ + escape_xml_spec(label) + "</text>"@
}

/// An end event: a thick circle with its label below.
pub open spec fn end_event_svg(x: int, y: int, label: Seq<char>) -> Seq<char> {
    "<circle cx=\""@ + signed_decimal(x) + "\" cy=\""@ + signed_decimal(y) + "\" r=\"20\" class=\"event\" stroke-width=\"3\"/>\n            <text x=\""@ + signed_decimal(x) + "\" y=\""@ + signed_decimal(y + 35) + "\" text-anchor=\"middle\" class=\"label\">"@ + escape_xml_spec(label) + "</text>"@
}

/// A box centred at (x, y) with a label and, smaller, its kind.
pub open spec fn flow_box_svg(x: int, y: int, label: Seq<char>, process_type: Seq<char>) -> Seq<char> {
    "<rect x=\""@ + signed_decimal(x - 60) + "\" y=\""@ + signed_decimal(y - 30) + "\" width=\"120\" height=\"60\" rx=\"5\" class=\"process-box\"/>\n            <text x=\""@ + signed_decimal(x) + "\" y=\""@ + signed_decimal(y - 5) + "\" text-anchor=\"middle\" class=\"label\">"@ + escape_xml_spec(label) + "</text>\n            <text x=\""@ + signed_decimal(x) + "\" y=\""@ + signed_decimal(y + 15) + "\" text-anchor=\"middle\" class=\"label\" font-size=\"10\">"@ + process_type + "</text>"@
}

/// A curved connector from one point to another, bending at the middle x.
pub open spec fn connector_svg(from_x: int, from_y: int, to_x: int, to_y: int) -> Seq<char> {
    "<path d=\"M "@ + signed_decimal(from_x) + " "@ + signed_decimal(from_y) + " Q "@ + signed_decimal((from_x + to_x) / 2) + " "@ + signed_decimal(from_y) + " "@ + signed_decimal(to_x) + " "@ + signed_decimal(to_y) + "\" class=\"connector\" marker-end=\"url(#arrowhead)\"/>"@
}

/// The style sheet of the SVG picture.
pub open spec fn svg_styles_text() -> Seq<char> {
    "<style>\n    .title { font-size: 24px; font-weight: bold; fill: #333; }\n    .event { fill: #90EE90; stroke: #333; stroke-width: 2; }\n    .process-box { fill: #87CEEB; stroke: #333; stroke-width: 2; }\n    .connector { stroke: #333; stroke-width: 2; fill: none; }\n    .label { font-size: 12px; fill: #333; }\n    .legend-title { font-size: 14px; font-weight: bold; fill: #333; }\n</style>"@
}

/// The legend of the SVG picture.
pub open spec fn svg_legend_text() -> Seq<char> {
    "<g id=\"legend\">\n        <text x=\"20\" y=\"550\" class=\"legend-title\">Legend:</text>\n        <circle cx=\"40\" cy=\"570\" r=\"8\" class=\"event\"/>\n        <text x=\"55\" y=\"575\" class=\"label\">Event</text>\n        <rect x=\"125\" y=\"562\" width=\"40\" height=\"25\" rx=\"3\" class=\"process-box\"/>\n        <text x=\"175\" y=\"575\" class=\"label\">Process</text>\n        <line x1=\"260\" y1=\"570\" x2=\"300\" y2=\"570\" class=\"connector\"/>\n        <text x=\"310\" y=\"575\" class=\"label\">Flow</text>\n    </g>"@
}

/// Boxes for the tasks, left to right from x = 300, 200 apart, at y = 150.
pub open spec fn task_boxes_svg(ts: Seq<Task>) -> Seq<char>
    decreases ts.len(),
{
    if ts.len() == 0 {
        Seq::empty()
    } else {
        task_boxes_svg(ts.drop_last()) + flow_box_svg(300 + (ts.len() - 1) * 200, 150, ts.last().name@, "Task"@)
    }
}

/// The SVG picture of a process: a start event, a box per task (or one box
/// for the process when it has none), an end event, connectors and a legend.
pub open spec fn svg_text(p: Process) -> Seq<char> {
    let n: int = p.tasks@.len() as int;
    let end_x: int = 500 + n * 200;
    "<svg xmlns=\"http://www.w3.org/2000/svg\" width=\""@ + decimal(800) + "\" height=\""@ + decimal(600) + "\" viewBox=\"0 0 "@ + decimal(800) + " "@ + decimal(600) + "\">"@ + svg_styles_text() + "<rect width=\""@ + decimal(800) + "\" height=\""@ + decimal(600) + "\" fill=\"white\" stroke=\""@ + "#ddd"@ + "\" />"@ + "<text x=\"20\" y=\"30\" class=\"title\">"@ + escape_xml_spec(p.name@) + "</text>"@ + start_event_svg(100, 100, "Start"@) + (if n > 0 {
        task_boxes_svg(p.tasks@)
    } else {
        flow_box_svg(300, 150, p.name@, "Process"@)
    }) + end_event_svg(end_x, 100, "End"@) + connector_svg(130, 100, 270, 150) + (if n > 0 {
        connector_svg(300 + (n - 1) * 200 + 30, 150, end_x - 30, 100)
    } else {
        connector_svg(330, 150, end_x - 30, 100)
    }) + svg_legend_text() + "</svg>"@
}

/// A line of sixty `=`.
pub open spec fn rule_line() -> Seq<char> {
    Seq::new(60, |i: int| '=')
}

/// One outline line per task: its name and id.
pub open spec fn task_lines(ts: Seq<Task>) -> Seq<char>
    decreases ts.len(),
{
    if ts.len() == 0 {
        Seq::empty()
    } else {
        task_lines(ts.drop_last()) + "  - "@ + ts.last().name@ + " ("@ + ts.last().id@ + ")\n"@
    }
}

/// One outline line per gateway: its name and id.
pub open spec fn gateway_lines(gs: Seq<Gateway>) -> Seq<char>
    decreases gs.len(),
{
    if gs.len() == 0 {
        Seq::empty()
    } else {
        gateway_lines(gs.drop_last()) + "  - "@ + gs.last().name@ + " ("@ + gs.last().id@ + ")\n"@
    }
}

/// The plain text outline of a process: its name framed by rules, START,
/// the tasks and the decision points if there are any, END.
pub open spec fn ascii_text(p: Process) -> Seq<char> {
    rule_line() + "\n"@ + "Process: "@ + p.name@ + "\n"@ + rule_line() + "\n\n"@ + "START\n"@ + "  [*]\n\n"@ + (if p.tasks@.len()
        > 0 {
        "TASKS:\n"@ + task_lines(p.tasks@) + "\n"@
    } else {
        Seq::empty()
    }) + (if p.gateways@.len() > 0 {
        "DECISION POINTS:\n"@ + gateway_lines(p.gateways@) + "\n"@
    } else {
        Seq::empty()
    }) + "END\n"@ + "  [*]\n"@
}

/// `text` with `& < > " '` replaced by their XML entities.
pub fn escape_xml(text: &str) -> (r: String)
    ensures
        r@ == escape_xml_spec(text@),
{
    crate::escape::escape_xml(text)
}

fn int_text(x: i32) -> (r: String)
    ensures
        r@ == signed_decimal(x as int),
{
    i128_to_decimal(x as i128)
}

fn app_dec(s: &mut String, n: u64)
    ensures
        final(s)@ == old(s)@ + decimal(n as nat),
{
    let t = u64_to_decimal(n);
    s.append(t.as_str());
}

fn rule_text() -> (r: String)
    ensures
        r@ == rule_line(),
{
    let mut r = String::new();
    let mut i: usize = 0;
    while i < 60
        invariant
            i <= 60,
            r@ == Seq::new(i as nat, |k: int| '='),
        decreases 60 - i,
    {
        r.push('=');
        assert(r@ =~= Seq::new((i + 1) as nat, |k: int| '='));
        i = i + 1;
    }
    r
}

impl DiagramGenerator {
    /// A generator of diagrams in `format`.
    pub fn new(format: DiagramFormat) -> (r: Self)
        ensures
            r.format == format,
    {
        DiagramGenerator { format }
    }

    /// The diagram of `process` in this generator's format. Coordinates are
    /// `i32`: with more than 5,368,707 tasks the sum of the last connector's
    /// two x coordinates (400 per task, plus 600) would not fit.
    pub fn generate(&self, process: &Process) -> (r: Result<String, String>)
        requires
            process.tasks@.len() <= 5368707,
        ensures
            self.format == DiagramFormat::Svg ==> (r matches Ok(s) && s@ == svg_text(*process)),
            self.format == DiagramFormat::Ascii ==> (r matches Ok(s) && s@ == ascii_text(*process)),
    {
        match self.format {
            DiagramFormat::Svg => self.generate_svg(process),
            DiagramFormat::Ascii => self.generate_ascii(process),
        }
    }

    fn generate_svg(&self, process: &Process) -> (r: Result<String, String>)
        requires
            process.tasks@.len() <= 5368707,
        ensures
            r matches Ok(s) && s@ == svg_text(*process),
    {
        let mut s = String::new();
        s.append("<svg xmlns=\"http://www.w3.org/2000/svg\" width=\"");
        app_dec(&mut s, 800);
        s.append("\" height=\"");
        app_dec(&mut s, 600);
        s.append("\" viewBox=\"0 0 ");
        app_dec(&mut s, 800);
        s.append(" ");
        app_dec(&mut s, 600);
        s.append("\">");
        s.append(Self::svg_styles());
        s.append("<rect width=\"");
        app_dec(&mut s, 800);
        s.append("\" height=\"");
        app_dec(&mut s, 600);
        s.append("\" fill=\"white\" stroke=\"");
        s.append("#ddd");
        s.append("\" />");
        s.append("<text x=\"20\" y=\"30\" class=\"title\">");
        let e = escape_xml(process.name.as_str()); s.append(e.as_str());
        s.append("</text>");
        let part = Self::draw_start_event(100, 100, "Start");
        s.append(part.as_str());
        let n = process.tasks.len();
        if n > 0 {
            let ghost pre = s@;
            let mut i: usize = 0;
            while i < n
                invariant
                    i <= n,
                    n == process.tasks@.len(),
                    n <= 5368707,
                    s@ == pre + task_boxes_svg(process.tasks@.take(i as int)),
                decreases n - i,
            {
                assert(process.tasks@.take(i + 1).drop_last() =~= process.tasks@.take(i as int));
                let x: i32 = 300 + (i as i32) * 200;
                let part = Self::draw_flow_box(x, 150, process.tasks[i].name.as_str(), "Task");
                s.append(part.as_str());
                assert(s@ =~= pre + task_boxes_svg(process.tasks@.take(i + 1)));
                i = i + 1;
            }
            assert(process.tasks@.take(n as int) =~= process.tasks@);
        } else {
            let part = Self::draw_flow_box(300, 150, process.name.as_str(), "Process");
            s.append(part.as_str());
        }
        let end_x: i32 = 500 + (n as i32) * 200;
        let part = Self::draw_end_event(end_x, 100, "End");
        s.append(part.as_str());
        let part = Self::draw_connector(130, 100, 270, 150);
        s.append(part.as_str());
        if n > 0 {
            let last_task_x: i32 = 300 + ((n - 1) as i32) * 200;
            let part = Self::draw_connector(last_task_x + 30, 150, end_x - 30, 100);
            s.append(part.as_str());
        } else {
            let part = Self::draw_connector(330, 150, end_x - 30, 100);
            s.append(part.as_str());
        }
        s.append(Self::svg_legend());
        s.append("</svg>");
        assert(s@ =~= svg_text(*process));
        Ok(s)
    }

    fn generate_ascii(&self, process: &Process) -> (r: Result<String, String>)
        ensures
            r matches Ok(s) && s@ == ascii_text(*process),
    {
        let rule = rule_text();
        let mut s = String::new();
        s.append(rule.as_str());
        s.append("\n");
        s.append("Process: ");
        s.append(process.name.as_str());
        s.append("\n");
        s.append(rule.as_str());
        s.append("\n\n");
        s.append("START\n");
        s.append("  [*]\n\n");
        if process.tasks.len() > 0 {
            s.append("TASKS:\n");
            let ghost pre = s@;
            let mut i: usize = 0;
            while i < process.tasks.len()
                invariant
                    i <= process.tasks.len(),
                    s@ == pre + task_lines(process.tasks@.take(i as int)),
                decreases process.tasks.len() - i,
            {
                assert(process.tasks@.take(i + 1).drop_last() =~= process.tasks@.take(i as int));
                s.append("  - ");
                s.append(process.tasks[i].name.as_str());
                s.append(" (");
                s.append(process.tasks[i].id.as_str());
                s.append(")\n");
                assert(s@ =~= pre + task_lines(process.tasks@.take(i + 1)));
                i = i + 1;
            }
            assert(process.tasks@.take(process.tasks.len() as int) =~= process.tasks@);
            s.append("\n");
        }
        if process.gateways.len() > 0 {
            s.append("DECISION POINTS:\n");
            let ghost pre = s@;
            let mut i: usize = 0;
            while i < process.gateways.len()
                invariant
                    i <= process.gateways.len(),
                    s@ == pre + gateway_lines(process.gateways@.take(i as int)),
                decreases process.gateways.len() - i,
            {
                assert(process.gateways@.take(i + 1).drop_last() =~= process.gateways@.take(i as int));
                s.append("  - ");
                s.append(process.gateways[i].name.as_str());
                s.append(" (");
                s.append(process.gateways[i].id.as_str());
                s.append(")\n");
                assert(s@ =~= pre + gateway_lines(process.gateways@.take(i + 1)));
                i = i + 1;
            }
            assert(process.gateways@.take(process.gateways.len() as int) =~= process.gateways@);
            s.append("\n");
        }
        s.append("END\n");
        s.append("  [*]\n");
        assert(s@ =~= ascii_text(*process));
        Ok(s)
    }

    fn svg_styles() -> (r: &'static str)
        ensures
            r@ == svg_styles_text(),
    {
        "<style>\n    .title { font-size: 24px; font-weight: bold; fill: #333; }\n    .event { fill: #90EE90; stroke: #333; stroke-width: 2; }\n    .process-box { fill: #87CEEB; stroke: #333; stroke-width: 2; }\n    .connector { stroke: #333; stroke-width: 2; fill: none; }\n    .label { font-size: 12px; fill: #333; }\n    .legend-title { font-size: 14px; font-weight: bold; fill: #333; }\n</style>"
    }

    fn svg_legend() -> (r: &'static str)
        ensures
            r@ == svg_legend_text(),
    {
        "<g id=\"legend\">\n        <text x=\"20\" y=\"550\" class=\"legend-title\">Legend:</text>\n        <circle cx=\"40\" cy=\"570\" r=\"8\" class=\"event\"/>\n        <text x=\"55\" y=\"575\" class=\"label\">Event</text>\n        <rect x=\"125\" y=\"562\" width=\"40\" height=\"25\" rx=\"3\" class=\"process-box\"/>\n        <text x=\"175\" y=\"575\" class=\"label\">Process</text>\n        <line x1=\"260\" y1=\"570\" x2=\"300\" y2=\"570\" class=\"connector\"/>\n        <text x=\"310\" y=\"575\" class=\"label\">Flow</text>\n    </g>"
    }

    fn draw_start_event(x: i32, y: i32, label: &str) -> (r: String)
    requires
        -2_000_000_000 <= x <= 2_000_000_000,
        -2_000_000_000 <= y <= 2_000_000_000,
        ensures
            r@ == start_event_svg(x as int, y as int, label@),
    {
        let mut s = String::new();
        s.append("<circle cx=\"");
        let t = int_text(x); s.append(t.as_str());
        s.append("\" cy=\"");
        let t = int_text(y); s.append(t.as_str());
        s.append("\" r=\"20\" class=\"event\"/>\n            <text x=\"");
        let t = int_text(x); s.append(t.as_str());
        s.append("\" y=\"");
        let t = int_text(y + 35); s.append(t.as_str());
        s.append("\" text-anchor=\"middle\" class=\"label\">");
        let e = escape_xml(label); s.append(e.as_str());
        s.append("</text>");
        assert(s@ =~= start_event_svg(x as int, y as int, label@));
        s
    }

    fn draw_end_event(x: i32, y: i32, label: &str) -> (r: String)
    requires
        -2_000_000_000 <= x <= 2_000_000_000,
        -2_000_000_000 <= y <= 2_000_000_000,
        ensures
            r@ == end_event_svg(x as int, y as int, label@),
    {
        let mut s = String::new();
        s.append("<circle cx=\"");
        let t = int_text(x); s.append(t.as_str());
        s.append("\" cy=\"");
        let t = int_text(y); s.append(t.as_str());
        s.append("\" r=\"20\" class=\"event\" stroke-width=\"3\"/>\n            <text x=\"");
        let t = int_text(x); s.append(t.as_str());
        s.append("\" y=\"");
        let t = int_text(y + 35); s.append(t.as_str());
        s.append("\" text-anchor=\"middle\" class=\"label\">");
        let e = escape_xml(label); s.append(e.as_str());
        s.append("</text>");
        assert(s@ =~= end_event_svg(x as int, y as int, label@));
        s
    }

    fn draw_flow_box(x: i32, y: i32, label: &str, process_type: &str) -> (r: String)
    requires
        -2_000_000_000 <= x <= 2_000_000_000,
        -2_000_000_000 <= y <= 2_000_000_000,
        ensures
            r@ == flow_box_svg(x as int, y as int, label@, process_type@),
    {
        let mut s = String::new();
        s.append("<rect x=\"");
        let t = int_text(x - 60); s.append(t.as_str());
        s.append("\" y=\"");
        let t = int_text(y - 30); s.append(t.as_str());
        s.append("\" width=\"120\" height=\"60\" rx=\"5\" class=\"process-box\"/>\n            <text x=\"");
        let t = int_text(x); s.append(t.as_str());
        s.append("\" y=\"");
        let t = int_text(y - 5); s.append(t.as_str());
        s.append("\" text-anchor=\"middle\" class=\"label\">");
        let e = escape_xml(label); s.append(e.as_str());
        s.append("</text>\n            <text x=\"");
        let t = int_text(x); s.append(t.as_str());
        s.append("\" y=\"");
        let t = int_text(y + 15); s.append(t.as_str());
        s.append("\" text-anchor=\"middle\" class=\"label\" font-size=\"10\">");
        s.append(process_type);
        s.append("</text>");
        assert(s@ =~= flow_box_svg(x as int, y as int, label@, process_type@));
        s
    }

    fn draw_connector(from_x: i32, from_y: i32, to_x: i32, to_y: i32) -> (r: String)
    requires
        0 <= from_x + to_x <= i32::MAX,
        ensures
            r@ == connector_svg(from_x as int, from_y as int, to_x as int, to_y as int),
    {
        let mut s = String::new();
        s.append("<path d=\"M ");
        let t = int_text(from_x); s.append(t.as_str());
        s.append(" ");
        let t = int_text(from_y); s.append(t.as_str());
        s.append(" Q ");
        let mid_x = (from_x + to_x) / 2; let t = int_text(mid_x); s.append(t.as_str());
        s.append(" ");
        let t = int_text(from_y); s.append(t.as_str());
        s.append(" ");
        let t = int_text(to_x); s.append(t.as_str());
        s.append(" ");
        let t = int_text(to_y); s.append(t.as_str());
        s.append("\" class=\"connector\" marker-end=\"url(#arrowhead)\"/>");
        assert(s@ =~= connector_svg(from_x as int, from_y as int, to_x as int, to_y as int));
        s
    }

}

} // verus!

