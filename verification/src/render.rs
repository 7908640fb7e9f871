//! Plain-text rendering of a context snapshot for a terminal view, as styled lines.

use vstd::prelude::*;

use crate::collection::CollectionView;
use crate::collection::ItemView;
use crate::protocol::wire_item_views;
use crate::protocol::ContextInspectionCollection;
use crate::protocol::ContextInspectionItem;
use crate::protocol::ContextInspectionSnapshot;
use crate::protocol::ModelRequestAttemptStatus;
use crate::protocol::ModelRequestComponentSummary;
use crate::protocol::ModelRequestSnapshot;
use crate::protocol::ModelRequestTransport;
use crate::protocol::WireSnapshotView;
use crate::protocol::status_meaning;
use crate::protocol::transport_meaning;
use crate::request::ComponentView;
use crate::request::InspectionView;
use crate::request::RequestView;
use crate::request::ValueCollectionView;
use crate::text::decimal;
use crate::text::push_decimal;
use crate::text::push_signed_decimal;
use crate::text::right_aligned3;
use crate::text::right_aligned3_decimal;
use crate::text::signed_decimal;

verus! {

/// Style of one piece of rendered text.
#[derive(Clone, Copy, Debug, PartialEq, Eq, Structural)]
pub enum SpanStyle {
    Plain,
    Bold,
    Dim,
    BoldUnderlined,
    Cyan,
    Magenta,
    Green,
    Red,
    RedBold,
}

/// A piece of text with one style.
#[derive(Debug, PartialEq, Eq)]
pub struct StyledSpan {
    pub text: String,
    pub style: SpanStyle,
}

impl View for StyledSpan {
    type V = (Seq<char>, SpanStyle);

    open spec fn view(&self) -> (Seq<char>, SpanStyle) {
        (self.text@, self.style)
    }
}

/// One rendered line.
#[derive(Debug, PartialEq, Eq)]
pub struct StyledLine {
    pub spans: Vec<StyledSpan>,
}

/// Abstract value of a line: its spans' texts and styles in order.
pub type LineView = Seq<(Seq<char>, SpanStyle)>;

impl View for StyledLine {
    type V = LineView;

    open spec fn view(&self) -> LineView {
        self.spans@.map_values(|span: StyledSpan| span@)
    }
}

/// Abstract values of a sequence of lines.
pub open spec fn lines_view(lines: Seq<StyledLine>) -> Seq<LineView> {
    lines.map_values(|line: StyledLine| line@)
}

/// A line of one span.
pub open spec fn one_span(text: Seq<char>, style: SpanStyle) -> LineView {
    seq![(text, style)]
}

/// `label: value` with a dim label.
pub open spec fn field_line(label: Seq<char>, value: Seq<char>) -> LineView {
    seq![(label + ": "@, SpanStyle::Dim), (value, SpanStyle::Plain)]
}

/// `label: value` with a bold label and a dim value.
pub open spec fn reference_line(label: Seq<char>, value: Seq<char>) -> LineView {
    seq![(label + ": "@, SpanStyle::Bold), (value, SpanStyle::Dim)]
}

/// A blank line: a line with no spans at all, as an empty text line has none.
pub open spec fn blank_line() -> LineView {
    Seq::empty()
}

/// A blank line followed by a bold, underlined title.
pub open spec fn section_lines(title: Seq<char>) -> Seq<LineView> {
    seq![blank_line(), one_span(title, SpanStyle::BoldUnderlined)]
}

/// `yes` or `no`.
pub open spec fn yes_no(value: bool) -> Seq<char> {
    if value {
        "yes"@
    } else {
        "no"@
    }
}

/// `yes`, `no`, or `not available`.
pub open spec fn optional_bool_text(value: Option<bool>) -> Seq<char> {
    match value {
        Some(v) => yes_no(v),
        None => "not available"@,
    }
}

/// Whether two collections are shown as the same: same fingerprint and item count.
pub open spec fn same_collection(left: CollectionView, right: CollectionView) -> bool {
    left.fingerprint == right.fingerprint && left.total_items == right.total_items
}

/// The line describing one item record.
pub open spec fn item_line(item: ItemView, indent: Seq<char>) -> LineView {
    seq![
        (indent + "  ["@ + right_aligned3(decimal(item.index as nat)) + "] "@, SpanStyle::Dim),
        (item.kind, SpanStyle::Cyan),
        (
            match item.role {
                Some(role) => " · "@ + role,
                None => Seq::empty(),
            },
            SpanStyle::Plain,
        ),
        (" · "@ + decimal(item.serialized_bytes as nat) + " B"@, SpanStyle::Dim),
    ]
}

/// The lines of every item record.
pub open spec fn item_lines(items: Seq<ItemView>, indent: Seq<char>) -> Seq<LineView> {
    items.map_values(|item: ItemView| item_line(item, indent))
}

/// The lines describing a collection under `title`.
pub open spec fn collection_lines(
    title: Seq<char>,
    collection: CollectionView,
    indent: Seq<char>,
) -> Seq<LineView> {
    seq![
        one_span(indent + title, SpanStyle::Bold),
        one_span(
            indent + "  "@ + decimal(collection.total_items as nat) + " items · "@ + decimal(
                collection.represented_items as nat,
            ) + " represented · "@ + decimal(collection.omitted_items as nat) + " omitted · "@
                + decimal(collection.total_serialized_bytes as nat) + " serialized bytes"@,
            SpanStyle::Plain,
        ),
        seq![(indent + "  Fingerprint: "@, SpanStyle::Dim), (collection.fingerprint, SpanStyle::Dim)],
    ] + if collection.items.len() == 0 {
        seq![one_span(indent + "  (no item metadata represented)"@, SpanStyle::Dim)]
    } else {
        item_lines(collection.items, indent)
    }
}

/// The styled word for a status.
pub open spec fn status_span(
    status: crate::request::ModelRequestAttemptStatus,
) -> (Seq<char>, SpanStyle) {
    match status {
        crate::request::ModelRequestAttemptStatus::Prepared => ("prepared"@, SpanStyle::Magenta),
        crate::request::ModelRequestAttemptStatus::Sent => ("sent"@, SpanStyle::Green),
        crate::request::ModelRequestAttemptStatus::Failed => ("failed"@, SpanStyle::Red),
    }
}

/// The name of a transport.
pub open spec fn transport_text(transport: crate::request::ModelRequestTransport) -> Seq<char> {
    match transport {
        crate::request::ModelRequestTransport::ResponsesHttp => "responses HTTP"@,
        crate::request::ModelRequestTransport::ResponsesWebsocket => "responses WebSocket"@,
    }
}

/// The line for an optional component summary.
pub open spec fn component_line(label: Seq<char>, component: Option<ComponentView>) -> LineView {
    field_line(
        label,
        match component {
            Some(c) => decimal(c.serialized_bytes as nat) + " B · "@ + c.fingerprint,
            None => "none"@,
        },
    )
}

/// The line for an optional tool collection summary.
pub open spec fn tools_line(tools: Option<ValueCollectionView>) -> LineView {
    field_line(
        "  Tools"@,
        match tools {
            Some(t) => decimal(t.total_items as nat) + " items · "@ + decimal(
                t.serialized_bytes as nat,
            ) + " B · "@ + t.fingerprint,
            None => "none"@,
        },
    )
}

/// The lines describing one observed request under `title`.
pub open spec fn request_lines(title: Seq<char>, request: RequestView) -> Seq<LineView> {
    seq![
        blank_line(),
        seq![
            (title + " #"@ + decimal(request.sequence as nat) + " · "@, SpanStyle::Bold),
            status_span(request.status),
        ],
        field_line("  Captured at (Unix seconds)"@, signed_decimal(request.captured_at as int)),
        field_line("  Model / provider"@, request.model + " / "@ + request.provider),
        field_line(
            "  Transport"@,
            transport_text(request.transport) + " · delta="@ + yes_no(request.transport_uses_delta)
                + " · connection reused="@ + yes_no(request.connection_reused) + " · "@ + decimal(
                request.transport_input_items as nat,
            ) + " transport input items"@,
        ),
        field_line(
            "  Logical request"@,
            decimal(request.serialized_bytes as nat) + " B · "@ + request.fingerprint,
        ),
        component_line("  Instructions"@, request.instructions),
        tools_line(request.tools),
        component_line("  Output schema"@, request.output_schema),
    ] + collection_lines("Normalized request input"@, request.normalized_input, "  "@) + if same_collection(
        request.normalized_input,
        request.provider_input,
    ) {
        seq![
            seq![
                ("  Provider request input: "@, SpanStyle::Bold),
                ("same as normalized request input"@, SpanStyle::Dim),
            ],
        ]
    } else {
        collection_lines("Provider request input"@, request.provider_input, "  "@)
    }
}

/// The lines for the latest attempt.
pub open spec fn latest_attempt_lines(request: InspectionView) -> Seq<LineView> {
    match request.latest_attempt {
        Some(latest) => request_lines("Latest attempt"@, latest),
        None => seq![reference_line("Latest attempt"@, "none observed"@)],
    }
}

/// The lines for the last sent request; a request that is also the latest attempt is only
/// referenced.
pub open spec fn last_actual_lines(request: InspectionView) -> Seq<LineView> {
    match request.last_actual {
        Some(actual) => {
            if match request.latest_attempt {
                Some(latest) => latest.sequence == actual.sequence,
                None => false,
            } {
                seq![
                    reference_line(
                        "Last actual"@,
                        "same as latest attempt (#"@ + decimal(actual.sequence as nat) + "), sent"@,
                    ),
                ]
            } else {
                request_lines("Last actual"@, actual)
            }
        },
        None => seq![reference_line("Last actual"@, "none sent"@)],
    }
}

/// The opening lines of a snapshot rendering.
pub open spec fn heading_lines(snapshot: WireSnapshotView) -> Seq<LineView> {
    seq![
        one_span("Live context snapshot"@, SpanStyle::Bold),
        one_span(
            "Read-only, metadata-only. Content, arguments, outputs, schemas, and IDs are not disclosed."@,
            SpanStyle::Dim,
        ),
        field_line("History version"@, decimal(snapshot.history_version as nat)),
        field_line("Item metadata limit"@, decimal(snapshot.applied_max_items as nat)),
    ]
}

/// The current history section.
pub open spec fn history_lines(snapshot: WireSnapshotView) -> Seq<LineView> {
    section_lines("Current history"@) + collection_lines("Raw history"@, snapshot.raw, Seq::empty())
        + if same_collection(snapshot.raw, snapshot.normalized) {
        seq![reference_line("Normalized history"@, "same as raw history"@)]
    } else {
        collection_lines("Normalized history"@, snapshot.normalized, Seq::empty())
    } + seq![
        field_line("Normalization changed"@, yes_no(snapshot.normalization.changed)),
        field_line(
            "Normalization identity counts"@,
            decimal(snapshot.normalization.unchanged_items as nat) + " unchanged, "@ + decimal(
                snapshot.normalization.raw_only_items as nat,
            ) + " raw-only, "@ + decimal(snapshot.normalization.normalized_only_items as nat)
                + " normalized-only"@,
        ),
    ]
}

/// The observed requests section.
pub open spec fn requests_lines(request: InspectionView) -> Seq<LineView> {
    section_lines("Observed model requests"@) + seq![
        one_span(
            "Sent is transport-level: HTTP returned a response stream; WebSocket wrote the request frame."@,
            SpanStyle::Dim,
        ),
    ] + latest_attempt_lines(request) + last_actual_lines(request) + seq![
        field_line(
            "Current normalized matches last actual"@,
            optional_bool_text(request.current_normalized_matches_last_actual),
        ),
    ]
}

/// The complete rendering of a snapshot.
pub open spec fn snapshot_lines(snapshot: WireSnapshotView) -> Seq<LineView> {
    heading_lines(snapshot) + history_lines(snapshot) + requests_lines(snapshot.request)
}

/// `line` without one carriage return at its end.
pub open spec fn without_carriage_return(line: Seq<char>) -> Seq<char> {
    if line.len() > 0 && line.last() == '\r' {
        line.drop_last()
    } else {
        line
    }
}

/// The lines finished so far and the line still open after reading `text`, where a line
/// feed ends a line and a carriage return right before it belongs to the line ending.
pub open spec fn line_split(text: Seq<char>) -> (Seq<Seq<char>>, Seq<char>)
    decreases text.len(),
{
    if text.len() == 0 {
        (Seq::empty(), Seq::empty())
    } else {
        let before = line_split(text.drop_last());
        if text.last() == '\n' {
            (before.0.push(without_carriage_return(before.1)), Seq::empty())
        } else {
            (before.0, before.1.push(text.last()))
        }
    }
}

/// The lines of `text`: split at `\n` or `\r\n`, with no line after a final line
/// ending, and none at all for empty text.
pub open spec fn text_lines(text: Seq<char>) -> Seq<Seq<char>> {
    let split = line_split(text);
    if split.1.len() == 0 {
        split.0
    } else {
        split.0.push(split.1)
    }
}

/// A text line: one plain span per line of `text`, with the line endings removed.
pub open spec fn plain_text_line(text: Seq<char>) -> LineView {
    text_lines(text).map_values(|line: Seq<char>| (line, SpanStyle::Plain))
}

/// The rendering of a failed inspection.
pub open spec fn error_lines(error: Seq<char>) -> Seq<LineView> {
    seq![
        one_span("Context inspection failed"@, SpanStyle::RedBold),
        plain_text_line(error),
        one_span(
            "No model request was issued and no conversation history was changed."@,
            SpanStyle::Dim,
        ),
    ]
}

fn text_of(s: &str) -> (text: String)
    ensures
        text@ == s@,
{
    let mut text = String::new();
    text.push_str(s);
    assert(text@ =~= s@);
    text
}

fn joined(a: &str, b: &str) -> (text: String)
    ensures
        text@ == a@ + b@,
{
    let mut text = String::new();
    text.push_str(a);
    text.push_str(b);
    assert(text@ =~= a@ + b@);
    text
}

fn line_of(spans: Vec<StyledSpan>) -> (line: StyledLine)
    ensures
        line@ == spans@.map_values(|span: StyledSpan| span@),
{
    StyledLine { spans }
}

fn single(text: String, style: SpanStyle) -> (line: StyledLine)
    ensures
        line@ == one_span(text@, style),
{
    let ghost t = text@;
    let mut spans: Vec<StyledSpan> = Vec::new();
    spans.push(StyledSpan { text, style });
    let line = line_of(spans);
    assert(line@ =~= one_span(t, style));
    line
}

fn empty_line() -> (line: StyledLine)
    ensures
        line@ == blank_line(),
{
    let line = line_of(Vec::new());
    assert(line@ =~= blank_line());
    line
}

fn string_of(chars: &Vec<char>) -> (text: String)
    ensures
        text@ == chars@,
{
    let mut text = String::new();
    let mut i: usize = 0;
    while i < chars.len()
        invariant
            i <= chars@.len(),
            text@ == chars@.take(i as int),
        decreases chars@.len() - i,
    {
        text.push(chars[i]);
        assert(chars@.take(i + 1) =~= chars@.take(i as int).push(chars@[i as int]));
        i = i + 1;
    }
    assert(chars@.take(i as int) =~= chars@);
    text
}

fn plain_span(chars: &Vec<char>) -> (span: StyledSpan)
    ensures
        span@ == (chars@, SpanStyle::Plain),
{
    StyledSpan { text: string_of(chars), style: SpanStyle::Plain }
}

proof fn lemma_push_plain_span(
    spans: Seq<StyledSpan>,
    lines: Seq<Seq<char>>,
    span: StyledSpan,
    line: Seq<char>,
)
    requires
        spans.map_values(|span: StyledSpan| span@) == lines.map_values(
            |line: Seq<char>| (line, SpanStyle::Plain),
        ),
        span@ == (line, SpanStyle::Plain),
    ensures
        spans.push(span).map_values(|span: StyledSpan| span@) == lines.push(line).map_values(
            |line: Seq<char>| (line, SpanStyle::Plain),
        ),
{
    let left = spans.map_values(|span: StyledSpan| span@);
    let right = lines.map_values(|line: Seq<char>| (line, SpanStyle::Plain));
    assert(left.len() == right.len());
    assert forall|j: int| 0 <= j < spans.len() implies spans[j]@ == (lines[j], SpanStyle::Plain) by {
        assert(left[j] == right[j]);
    }
    assert(spans.push(span).map_values(|span: StyledSpan| span@) =~= lines.push(line).map_values(
        |line: Seq<char>| (line, SpanStyle::Plain),
    ));
}

fn text_line(text: &str) -> (line: StyledLine)
    ensures
        line@ == plain_text_line(text@),
{
    let count = text.unicode_len();
    let mut spans: Vec<StyledSpan> = Vec::new();
    let mut current: Vec<char> = Vec::new();
    let mut i: usize = 0;
    assert(text@.take(0) =~= Seq::<char>::empty());
    while i < count
        invariant
            count == text@.len(),
            i <= count,
            spans@.map_values(|span: StyledSpan| span@) == line_split(text@.take(i as int)).0.map_values(
                |line: Seq<char>| (line, SpanStyle::Plain),
            ),
            current@ == line_split(text@.take(i as int)).1,
        decreases count - i,
    {
        let c = text.get_char(i);
        let ghost prefix = text@.take(i + 1);
        let ghost before = line_split(text@.take(i as int));
        assert(prefix.drop_last() =~= text@.take(i as int));
        assert(prefix.last() == c);
        let ghost old_spans = spans@;
        if c == '\n' {
            if current.len() > 0 && current[current.len() - 1] == '\r' {
                current.pop();
                assert(current@ =~= without_carriage_return(before.1));
            } else {
                assert(current@ =~= without_carriage_return(before.1));
            }
            let span = plain_span(&current);
            let ghost current_line = current@;
            assert(line_split(prefix).0 == before.0.push(current@));
            spans.push(span);
            current = Vec::new();
            assert(spans@ == old_spans.push(span));
            proof {
                lemma_push_plain_span(old_spans, before.0, span, current_line);
            }
            assert(spans@.map_values(|span: StyledSpan| span@) =~= line_split(prefix).0.map_values(
                |line: Seq<char>| (line, SpanStyle::Plain),
            ));
            assert(current@ =~= line_split(prefix).1);
        } else {
            current.push(c);
            assert(current@ =~= line_split(prefix).1);
        }
        i = i + 1;
    }
    assert(text@.take(count as int) =~= text@);
    let ghost split = line_split(text@);
    let ghost old_spans = spans@;
    if current.len() > 0 {
        let span = plain_span(&current);
        spans.push(span);
        assert(spans@ == old_spans.push(span));
        assert(text_lines(text@) == split.0.push(split.1));
        proof {
            lemma_push_plain_span(old_spans, split.0, span, split.1);
        }
        assert(spans@.map_values(|span: StyledSpan| span@) =~= plain_text_line(text@));
    } else {
        assert(spans@.map_values(|span: StyledSpan| span@) =~= plain_text_line(text@));
    }
    line_of(spans)
}

fn pair(a: String, a_style: SpanStyle, b: String, b_style: SpanStyle) -> (line: StyledLine)
    ensures
        line@ == seq![(a@, a_style), (b@, b_style)],
{
    let ghost ta = a@;
    let ghost tb = b@;
    let mut spans: Vec<StyledSpan> = Vec::new();
    spans.push(StyledSpan { text: a, style: a_style });
    spans.push(StyledSpan { text: b, style: b_style });
    let line = line_of(spans);
    assert(line@ =~= seq![(ta, a_style), (tb, b_style)]);
    line
}

fn field(label: &str, value: String) -> (line: StyledLine)
    ensures
        line@ == field_line(label@, value@),
{
    pair(joined(label, ": "), SpanStyle::Dim, value, SpanStyle::Plain)
}

fn reference(label: &str, value: String) -> (line: StyledLine)
    ensures
        line@ == reference_line(label@, value@),
{
    pair(joined(label, ": "), SpanStyle::Bold, value, SpanStyle::Dim)
}

fn push_line(lines: &mut Vec<StyledLine>, line: StyledLine)
    ensures
        lines_view(final(lines)@) == lines_view(old(lines)@).push(line@),
{
    lines.push(line);
    assert(lines_view(lines@) =~= lines_view(old(lines)@).push(line@));
}

fn section(lines: &mut Vec<StyledLine>, title: &str)
    ensures
        lines_view(final(lines)@) == lines_view(old(lines)@) + section_lines(title@),
{
    push_line(lines, empty_line());
    push_line(lines, single(text_of(title), SpanStyle::BoldUnderlined));
    assert(lines_view(lines@) =~= lines_view(old(lines)@) + section_lines(title@));
}

fn yes_no_text(value: bool) -> (text: String)
    ensures
        text@ == yes_no(value),
{
    if value {
        text_of("yes")
    } else {
        text_of("no")
    }
}

fn optional_bool(value: Option<bool>) -> (text: String)
    ensures
        text@ == optional_bool_text(value),
{
    match value {
        Some(v) => yes_no_text(v),
        None => text_of("not available"),
    }
}

fn same_wire_collection(
    left: &ContextInspectionCollection,
    right: &ContextInspectionCollection,
) -> (same: bool)
    ensures
        same == same_collection(left@, right@),
{
    left.fingerprint == right.fingerprint && left.total_items == right.total_items
}

fn item_line_of(item: &ContextInspectionItem, indent: &str) -> (line: StyledLine)
    ensures
        line@ == item_line(item@, indent@),
{
    let mut position = String::new();
    position.push_str(indent);
    position.push_str("  [");
    let padded = right_aligned3_decimal(item.index);
    position.push_str(padded.as_str());
    position.push_str("] ");
    let mut role = String::new();
    match &item.role {
        Some(r) => {
            role.push_str(" · ");
            role.push_str(r.as_str());
        },
        None => {},
    }
    let mut size = String::new();
    size.push_str(" · ");
    push_decimal(&mut size, item.serialized_bytes);
    size.push_str(" B");
    let ghost texts = (position@, item.kind@, role@, size@);
    let mut spans: Vec<StyledSpan> = Vec::new();
    spans.push(StyledSpan { text: position, style: SpanStyle::Dim });
    spans.push(StyledSpan { text: item.kind.clone(), style: SpanStyle::Cyan });
    spans.push(StyledSpan { text: role, style: SpanStyle::Plain });
    spans.push(StyledSpan { text: size, style: SpanStyle::Dim });
    let line = line_of(spans);
    assert(line@ =~= item_line(item@, indent@));
    line
}

fn collection(
    lines: &mut Vec<StyledLine>,
    title: &str,
    shown: &ContextInspectionCollection,
    indent: &str,
)
    ensures
        lines_view(final(lines)@) == lines_view(old(lines)@) + collection_lines(
            title@,
            shown@,
            indent@,
        ),
{
    let ghost start = lines_view(lines@);
    push_line(lines, single(joined(indent, title), SpanStyle::Bold));
    let mut counts = String::new();
    counts.push_str(indent);
    counts.push_str("  ");
    push_decimal(&mut counts, shown.total_items);
    counts.push_str(" items · ");
    push_decimal(&mut counts, shown.represented_items);
    counts.push_str(" represented · ");
    push_decimal(&mut counts, shown.omitted_items);
    counts.push_str(" omitted · ");
    push_decimal(&mut counts, shown.total_serialized_bytes);
    counts.push_str(" serialized bytes");
    push_line(lines, single(counts, SpanStyle::Plain));
    push_line(
        lines,
        pair(
            joined(indent, "  Fingerprint: "),
            SpanStyle::Dim,
            shown.fingerprint.clone(),
            SpanStyle::Dim,
        ),
    );
    let ghost header = lines_view(lines@);
    let ghost items = shown@.items;
    if shown.items.len() == 0 {
        push_line(lines, single(joined(indent, "  (no item metadata represented)"), SpanStyle::Dim));
        assert(lines_view(lines@) =~= start + collection_lines(title@, shown@, indent@));
        return;
    }
    let mut i: usize = 0;
    assert(item_lines(items.take(0), indent@) =~= Seq::<LineView>::empty());
    while i < shown.items.len()
        invariant
            items == wire_item_views(shown.items@),
            i <= shown.items@.len(),
            lines_view(lines@) == header + item_lines(items.take(i as int), indent@),
        decreases shown.items@.len() - i,
    {
        let line = item_line_of(&shown.items[i], indent);
        push_line(lines, line);
        assert(item_lines(items.take(i + 1), indent@) =~= item_lines(items.take(i as int), indent@).push(
            item_line(items[i as int], indent@),
        ));
        i = i + 1;
    }
    assert(items.take(items.len() as int) =~= items);
    assert(lines_view(lines@) =~= start + collection_lines(title@, shown@, indent@));
}

fn status_of(status: ModelRequestAttemptStatus) -> (span: StyledSpan)
    ensures
        span@ == status_span(status_meaning(status)),
{
    match status {
        ModelRequestAttemptStatus::Prepared => StyledSpan { text: text_of("prepared"), style: SpanStyle::Magenta },
        ModelRequestAttemptStatus::Sent => StyledSpan { text: text_of("sent"), style: SpanStyle::Green },
        ModelRequestAttemptStatus::Failed => StyledSpan { text: text_of("failed"), style: SpanStyle::Red },
    }
}

fn transport_of(transport: ModelRequestTransport) -> (text: String)
    ensures
        text@ == transport_text(transport_meaning(transport)),
{
    match transport {
        ModelRequestTransport::ResponsesHttp => text_of("responses HTTP"),
        ModelRequestTransport::ResponsesWebsocket => text_of("responses WebSocket"),
    }
}

fn component(label: &str, summary: &Option<ModelRequestComponentSummary>) -> (line: StyledLine)
    ensures
        line@ == component_line(label@, crate::protocol::wire_component(*summary)),
{
    let value = match summary {
        Some(c) => {
            let mut value = String::new();
            push_decimal(&mut value, c.serialized_bytes);
            value.push_str(" B · ");
            value.push_str(c.fingerprint.as_str());
            value
        },
        None => text_of("none"),
    };
    field(label, value)
}

fn request_snapshot(lines: &mut Vec<StyledLine>, title: &str, request: &ModelRequestSnapshot)
    ensures
        lines_view(final(lines)@) == lines_view(old(lines)@) + request_lines(title@, request@),
{
    let ghost start = lines_view(lines@);
    push_line(lines, empty_line());
    let mut heading = String::new();
    heading.push_str(title);
    heading.push_str(" #");
    push_decimal(&mut heading, request.sequence);
    heading.push_str(" · ");
    let ghost heading_text = heading@;
    let mut spans: Vec<StyledSpan> = Vec::new();
    spans.push(StyledSpan { text: heading, style: SpanStyle::Bold });
    spans.push(status_of(request.status));
    let heading_line = line_of(spans);
    assert(heading_line@ =~= seq![
        (heading_text, SpanStyle::Bold),
        status_span(status_meaning(request.status)),
    ]);
    push_line(lines, heading_line);
    let mut captured = String::new();
    push_signed_decimal(&mut captured, request.captured_at);
    push_line(lines, field("  Captured at (Unix seconds)", captured));
    let mut model = String::new();
    model.push_str(request.model.as_str());
    model.push_str(" / ");
    model.push_str(request.provider.as_str());
    push_line(lines, field("  Model / provider", model));
    let mut transport = transport_of(request.transport);
    transport.push_str(" · delta=");
    transport.push_str(yes_no_text(request.transport_uses_delta).as_str());
    transport.push_str(" · connection reused=");
    transport.push_str(yes_no_text(request.connection_reused).as_str());
    transport.push_str(" · ");
    push_decimal(&mut transport, request.transport_input_items);
    transport.push_str(" transport input items");
    push_line(lines, field("  Transport", transport));
    let mut logical = String::new();
    push_decimal(&mut logical, request.serialized_bytes);
    logical.push_str(" B · ");
    logical.push_str(request.fingerprint.as_str());
    push_line(lines, field("  Logical request", logical));
    push_line(lines, component("  Instructions", &request.instructions));
    let tools = match &request.tools {
        Some(tools) => {
            let mut value = String::new();
            push_decimal(&mut value, tools.total_items);
            value.push_str(" items · ");
            push_decimal(&mut value, tools.serialized_bytes);
            value.push_str(" B · ");
            value.push_str(tools.fingerprint.as_str());
            value
        },
        None => text_of("none"),
    };
    push_line(lines, field("  Tools", tools));
    push_line(lines, component("  Output schema", &request.output_schema));
    let ghost before_inputs = lines_view(lines@);
    collection(lines, "Normalized request input", &request.normalized_input, "  ");
    if same_wire_collection(&request.normalized_input, &request.provider_input) {
        push_line(
            lines,
            pair(
                text_of("  Provider request input: "),
                SpanStyle::Bold,
                text_of("same as normalized request input"),
                SpanStyle::Dim,
            ),
        );
    } else {
        collection(lines, "Provider request input", &request.provider_input, "  ");
    }
    assert(lines_view(lines@) =~= start + request_lines(title@, request@));
}

fn push_history(lines: &mut Vec<StyledLine>, snapshot: &ContextInspectionSnapshot)
    ensures
        lines_view(final(lines)@) == lines_view(old(lines)@) + history_lines(snapshot@),
{
    let ghost s = snapshot@;
    let ghost start = lines_view(lines@);
    section(lines, "Current history");
    collection(lines, "Raw history", &snapshot.raw, "");
    if same_wire_collection(&snapshot.raw, &snapshot.normalized) {
        push_line(lines, reference("Normalized history", text_of("same as raw history")));
    } else {
        collection(lines, "Normalized history", &snapshot.normalized, "");
    }
    push_line(lines, field("Normalization changed", yes_no_text(snapshot.normalization.changed)));
    let mut counts = String::new();
    push_decimal(&mut counts, snapshot.normalization.unchanged_items);
    counts.push_str(" unchanged, ");
    push_decimal(&mut counts, snapshot.normalization.raw_only_items);
    counts.push_str(" raw-only, ");
    push_decimal(&mut counts, snapshot.normalization.normalized_only_items);
    counts.push_str(" normalized-only");
    assert(counts@ =~= decimal(s.normalization.unchanged_items as nat) + " unchanged, "@ + decimal(
        s.normalization.raw_only_items as nat,
    ) + " raw-only, "@ + decimal(s.normalization.normalized_only_items as nat)
        + " normalized-only"@);
    push_line(lines, field("Normalization identity counts", counts));
    assert(""@ =~= Seq::<char>::empty()) by {
        reveal_strlit("");
    }
    assert(lines_view(lines@) =~= start + history_lines(s));
}

fn push_requests(lines: &mut Vec<StyledLine>, request: &crate::protocol::ModelRequestInspection)
    ensures
        lines_view(final(lines)@) == lines_view(old(lines)@) + requests_lines(request@),
{
    let ghost r = request@;
    let ghost start = lines_view(lines@);
    section(lines, "Observed model requests");
    push_line(
        lines,
        single(
            text_of(
                "Sent is transport-level: HTTP returned a response stream; WebSocket wrote the request frame.",
            ),
            SpanStyle::Dim,
        ),
    );
    let ghost before_latest = lines_view(lines@);
    match &request.latest_attempt {
        Some(latest) => request_snapshot(lines, "Latest attempt", latest),
        None => push_line(lines, reference("Latest attempt", text_of("none observed"))),
    }
    assert(lines_view(lines@) =~= before_latest + latest_attempt_lines(r));
    let ghost before_actual = lines_view(lines@);
    match &request.last_actual {
        Some(actual) => {
            let same_as_latest = match &request.latest_attempt {
                Some(latest) => latest.sequence == actual.sequence,
                None => false,
            };
            if same_as_latest {
                let mut value = String::new();
                value.push_str("same as latest attempt (#");
                push_decimal(&mut value, actual.sequence);
                value.push_str("), sent");
                assert(value@ =~= "same as latest attempt (#"@ + decimal(actual.sequence as nat)
                    + "), sent"@);
                push_line(lines, reference("Last actual", value));
            } else {
                request_snapshot(lines, "Last actual", actual);
            }
        },
        None => push_line(lines, reference("Last actual", text_of("none sent"))),
    }
    assert(lines_view(lines@) =~= before_actual + last_actual_lines(r));
    push_line(
        lines,
        field(
            "Current normalized matches last actual",
            optional_bool(request.current_normalized_matches_last_actual),
        ),
    );
    assert(lines_view(lines@) =~= start + requests_lines(r));
}

/// Renders a snapshot as styled lines.
pub fn render_snapshot(snapshot: &ContextInspectionSnapshot) -> (lines: Vec<StyledLine>)
    ensures
        lines_view(lines@) == snapshot_lines(snapshot@),
{
    let ghost s = snapshot@;
    let mut lines: Vec<StyledLine> = Vec::new();
    push_line(&mut lines, single(text_of("Live context snapshot"), SpanStyle::Bold));
    push_line(
        &mut lines,
        single(
            text_of(
                "Read-only, metadata-only. Content, arguments, outputs, schemas, and IDs are not disclosed.",
            ),
            SpanStyle::Dim,
        ),
    );
    let mut version = String::new();
    push_decimal(&mut version, snapshot.history_version);
    assert(version@ =~= decimal(s.history_version as nat));
    push_line(&mut lines, field("History version", version));
    let mut limit = String::new();
    push_decimal(&mut limit, snapshot.applied_limits.max_items);
    assert(limit@ =~= decimal(s.applied_max_items as nat));
    push_line(&mut lines, field("Item metadata limit", limit));
    assert(lines_view(lines@) =~= heading_lines(s));
    push_history(&mut lines, snapshot);
    push_requests(&mut lines, &snapshot.request);
    assert(lines_view(lines@) =~= snapshot_lines(s));
    lines
}

/// Renders a failed inspection.
pub fn render_error(error: &str) -> (lines: Vec<StyledLine>)
    ensures
        lines_view(lines@) == error_lines(error@),
{
    let mut lines: Vec<StyledLine> = Vec::new();
    push_line(&mut lines, single(text_of("Context inspection failed"), SpanStyle::RedBold));
    push_line(&mut lines, text_line(error));
    push_line(
        &mut lines,
        single(
            text_of("No model request was issued and no conversation history was changed."),
            SpanStyle::Dim,
        ),
    );
    assert(lines_view(lines@) =~= error_lines(error@));
    lines
}

/// The line showing a collection's fingerprint.
pub open spec fn fingerprint_line(indent: Seq<char>, fingerprint: Seq<char>) -> LineView {
    seq![(indent + "  Fingerprint: "@, SpanStyle::Dim), (fingerprint, SpanStyle::Dim)]
}

proof fn lemma_collection_opens_with_title_and_fingerprint(
    title: Seq<char>,
    collection: CollectionView,
    indent: Seq<char>,
)
    ensures
        collection_lines(title, collection, indent).len() >= 4,
        collection_lines(title, collection, indent)[0] == one_span(indent + title, SpanStyle::Bold),
        collection_lines(title, collection, indent)[2] == fingerprint_line(
            indent,
            collection.fingerprint,
        ),
{
}

/// Normalized history is referred to as the same as raw history only when the two have the
/// same fingerprint and item count. Otherwise it is rendered in full: its own title, followed
/// two lines later by its own fingerprint.
pub proof fn lemma_differing_normalized_history_is_rendered(snapshot: WireSnapshotView)
    ensures
        !(snapshot.raw.fingerprint == snapshot.normalized.fingerprint
            && snapshot.raw.total_items == snapshot.normalized.total_items) ==> exists|i: int|
            0 <= i && i + 2 < snapshot_lines(snapshot).len() && #[trigger] snapshot_lines(
                snapshot,
            )[i] == one_span("Normalized history"@, SpanStyle::Bold) && snapshot_lines(
                snapshot,
            )[i + 2] == fingerprint_line(Seq::empty(), snapshot.normalized.fingerprint),
        snapshot.raw.fingerprint == snapshot.normalized.fingerprint
            && snapshot.raw.total_items == snapshot.normalized.total_items ==> snapshot_lines(
            snapshot,
        ).contains(reference_line("Normalized history"@, "same as raw history"@)),
{
    let lines = snapshot_lines(snapshot);
    let raw = collection_lines("Raw history"@, snapshot.raw, Seq::empty());
    let start: int = (heading_lines(snapshot).len() + section_lines("Current history"@).len() + raw.len()) as int;
    assert(Seq::<char>::empty() + "Normalized history"@ =~= "Normalized history"@);
    lemma_collection_opens_with_title_and_fingerprint(
        "Normalized history"@,
        snapshot.normalized,
        Seq::empty(),
    );
    if same_collection(snapshot.raw, snapshot.normalized) {
        assert(lines[start] == reference_line("Normalized history"@, "same as raw history"@));
    } else {
        assert(lines[start] == one_span("Normalized history"@, SpanStyle::Bold));
        assert(lines[start + 2] == fingerprint_line(Seq::empty(), snapshot.normalized.fingerprint));
    }
}

/// A request's provider input is referred to as the same as its normalized input only when the
/// two have the same fingerprint and item count. Otherwise it is rendered in full: its own
/// title, followed two lines later by its own fingerprint.
pub proof fn lemma_differing_provider_input_is_rendered(title: Seq<char>, request: RequestView)
    ensures
        !(request.normalized_input.fingerprint == request.provider_input.fingerprint
            && request.normalized_input.total_items == request.provider_input.total_items)
            ==> exists|i: int|
            0 <= i && i + 2 < request_lines(title, request).len() && #[trigger] request_lines(
                title,
                request,
            )[i] == one_span("  Provider request input"@, SpanStyle::Bold) && request_lines(
                title,
                request,
            )[i + 2] == fingerprint_line("  "@, request.provider_input.fingerprint),
        request.normalized_input.fingerprint == request.provider_input.fingerprint
            && request.normalized_input.total_items == request.provider_input.total_items
            ==> request_lines(title, request).contains(
            seq![
                ("  Provider request input: "@, SpanStyle::Bold),
                ("same as normalized request input"@, SpanStyle::Dim),
            ],
        ),
{
    let lines = request_lines(title, request);
    let normalized = collection_lines("Normalized request input"@, request.normalized_input, "  "@);
    let start: int = (9 + normalized.len()) as int;
    reveal_strlit("  ");
    reveal_strlit("Provider request input");
    reveal_strlit("  Provider request input");
    assert("  "@ + "Provider request input"@ =~= "  Provider request input"@);
    lemma_collection_opens_with_title_and_fingerprint(
        "Provider request input"@,
        request.provider_input,
        "  "@,
    );
    if same_collection(request.normalized_input, request.provider_input) {
        assert(lines[start] == seq![
            ("  Provider request input: "@, SpanStyle::Bold),
            ("same as normalized request input"@, SpanStyle::Dim),
        ]);
    } else {
        assert(lines[start] == one_span("  Provider request input"@, SpanStyle::Bold));
        assert(lines[start + 2] == fingerprint_line("  "@, request.provider_input.fingerprint));
    }
}

} // verus!
