use vstd::prelude::*;
use crate::container::{Container, Protocol};

verus! {

/// One line of styled text, opaque to the proofs.
#[verifier::external_type_specification]
#[verifier::external_body]
pub struct ExSpans<'a>(tui::text::Spans<'a>);

/// One entry of a list widget, opaque to the proofs.
#[verifier::external_type_specification]
#[verifier::external_body]
pub struct ExListItem<'a>(tui::widgets::ListItem<'a>);

/// The characters that a line of styled text shows, span after span.
pub uninterp spec fn spans_text(spans: tui::text::Spans<'static>) -> Seq<char>;

/// The lines of text that a list entry shows.
pub uninterp spec fn list_item_lines(item: tui::widgets::ListItem<'static>) -> Seq<Seq<char>>;

/// The line of text that is made from a label: one span without style that holds it.
pub uninterp spec fn label_line(label: Seq<char>) -> tui::text::Spans<'static>;

/// The list entry that is made from a label: an entry without style that holds the lines
/// of the label, each as one span without style.
pub uninterp spec fn label_entry(label: Seq<char>) -> tui::widgets::ListItem<'static>;

/// Whether a label is shown as it stands: it is not empty and holds no line break.
pub open spec fn one_line(label: Seq<char>) -> bool {
    label.len() > 0 && !label.contains('\n') && !label.contains('\r')
}

/// `tui::text::Spans::from`, for a `String`: one unstyled span that holds the label, so the
/// line shows exactly the label. The line depends on the label alone.
#[verifier::external_body]
fn plain_spans(label: String) -> (res: tui::text::Spans<'static>)
    ensures
        res == label_line(label@),
        spans_text(res) == label@,
{
    tui::text::Spans::from(label)
}

/// `tui::widgets::ListItem::new`, for a `String`: an unstyled entry that holds the lines of
/// the label. The entry depends on the label alone. An empty label has no line, and a
/// label without a line break is its own single line.
#[verifier::external_body]
fn plain_item(label: String) -> (res: tui::widgets::ListItem<'static>)
    ensures
        res == label_entry(label@),
        label@.len() == 0 ==> list_item_lines(res) == Seq::<Seq<char>>::empty(),
        one_line(label@) ==> list_item_lines(res) == seq![label@],
{
    tui::widgets::ListItem::new(label)
}

/// One line of text for each container, made from its name, in the order of the
/// containers.
pub fn container_to_spans<T: Container>(container: Vec<T>) -> (res: Vec<tui::text::Spans<'static>>)
    ensures
        res.len() == container.len(),
        forall|i: int| 0 <= i < res.len() ==> #[trigger] res[i] == label_line(container[i].label()),
        forall|i: int| 0 <= i < res.len() ==> spans_text(#[trigger] res[i]) == container[i].label(),
{
    let mut lines: Vec<tui::text::Spans<'static>> = Vec::new();
    let mut at: usize = 0;
    while at < container.len()
        invariant
            at <= container.len(),
            lines.len() == at,
            forall|i: int| 0 <= i < at ==> #[trigger] lines[i] == label_line(container[i].label()),
            forall|i: int| 0 <= i < at ==> spans_text(#[trigger] lines[i]) == container[i].label(),
        decreases container.len() - at,
    {
        lines.push(plain_spans(container[at].name()));
        at = at + 1;
    }
    lines
}

/// One list entry for each container, made from its name, in the order of the
/// containers.
#[allow(non_snake_case)]
pub fn container_to_ListItem<T: Container>(container: Vec<T>) -> (res: Vec<
    tui::widgets::ListItem<'static>,
>)
    ensures
        res.len() == container.len(),
        forall|i: int| 0 <= i < res.len() ==> #[trigger] res[i] == label_entry(container[i].label()),
        forall|i: int|
            0 <= i < res.len() && container[i].label().len() == 0 ==> list_item_lines(
                #[trigger] res[i],
            ) == Seq::<Seq<char>>::empty(),
        forall|i: int|
            0 <= i < res.len() && one_line(container[i].label()) ==> list_item_lines(
                #[trigger] res[i],
            ) == seq![container[i].label()],
{
    let mut items: Vec<tui::widgets::ListItem<'static>> = Vec::new();
    let mut at: usize = 0;
    while at < container.len()
        invariant
            at <= container.len(),
            items.len() == at,
            forall|i: int| 0 <= i < at ==> #[trigger] items[i] == label_entry(container[i].label()),
            forall|i: int|
                0 <= i < at && container[i].label().len() == 0 ==> list_item_lines(
                    #[trigger] items[i],
                ) == Seq::<Seq<char>>::empty(),
            forall|i: int|
                0 <= i < at && one_line(container[i].label()) ==> list_item_lines(
                    #[trigger] items[i],
                ) == seq![container[i].label()],
        decreases container.len() - at,
    {
        items.push(plain_item(container[at].name()));
        at = at + 1;
    }
    items
}

/// One list entry for each request, made from its name and from nothing else of it, in
/// the order of the requests.
#[allow(non_snake_case)]
pub fn request_to_ListItem<T: Protocol>(request: Vec<T>) -> (res: Vec<
    tui::widgets::ListItem<'static>,
>)
    ensures
        res.len() == request.len(),
        forall|i: int| 0 <= i < res.len() ==> #[trigger] res[i] == label_entry(request[i].label()),
        forall|i: int|
            0 <= i < res.len() && request[i].label().len() == 0 ==> list_item_lines(
                #[trigger] res[i],
            ) == Seq::<Seq<char>>::empty(),
        forall|i: int|
            0 <= i < res.len() && one_line(request[i].label()) ==> list_item_lines(
                #[trigger] res[i],
            ) == seq![request[i].label()],
{
    let mut items: Vec<tui::widgets::ListItem<'static>> = Vec::new();
    let mut at: usize = 0;
    while at < request.len()
        invariant
            at <= request.len(),
            items.len() == at,
            forall|i: int| 0 <= i < at ==> #[trigger] items[i] == label_entry(request[i].label()),
            forall|i: int|
                0 <= i < at && request[i].label().len() == 0 ==> list_item_lines(
                    #[trigger] items[i],
                ) == Seq::<Seq<char>>::empty(),
            forall|i: int|
                0 <= i < at && one_line(request[i].label()) ==> list_item_lines(
                    #[trigger] items[i],
                ) == seq![request[i].label()],
        decreases request.len() - at,
    {
        items.push(plain_item(request[at].name()));
        at = at + 1;
    }
    items
}

} // verus!
