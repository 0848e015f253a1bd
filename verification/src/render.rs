//! The render policies: from an envelope to styled display lines.
//!
//! Rendering has no effect of its own; it hands back pairs of text and style,
//! and whoever owns the terminal writes them.

use vstd::prelude::*;
use crate::batch::events_of;
use crate::envelope::{GameEventDTO, GameEventView};
use crate::json::JsonTree;
use crate::schema::RenderPolicy;
use crate::text::lines_of;
use crate::vocabulary::CommandType;

verus! {

/// The display treatment of one line.
#[derive(Debug, Clone, Copy, PartialEq, Eq, Hash, Structural)]
pub enum Style {
    Observational,
    Hostile,
    ItemTransfer,
    Social,
    SelfStatus,
    Movement,
    InternalState,
    Neutral,
    Attribution,
    Dimmed,
    Highlight,
}

/// One line of output with its style.
#[derive(Debug, PartialEq, Eq)]
pub struct StyledLine {
    pub text: String,
    pub style: Style,
}

/// The mathematical value of a [`StyledLine`].
pub struct StyledLineView {
    pub text: Seq<char>,
    pub style: Style,
}

impl View for StyledLine {
    type V = StyledLineView;

    open spec fn view(&self) -> StyledLineView {
        StyledLineView { text: self.text@, style: self.style }
    }
}

impl Clone for StyledLine {
    fn clone(&self) -> (copy: StyledLine)
        ensures
            copy == *self,
    {
        StyledLine { text: self.text.clone(), style: self.style }
    }
}

/// The value of each line of a list of styled lines.
pub open spec fn styled_lines_of(lines: Seq<StyledLine>) -> Seq<StyledLineView> {
    Seq::new(lines.len(), |i: int| lines[i]@)
}

impl CommandType {
    /// The style of a command category under the category-centric policy.
    /// Categories outside the named groups are neutral.
    pub open spec fn spec_style(self) -> Style {
        match self {
            CommandType::LookAround
            | CommandType::LookAtAgent
            | CommandType::LookAtExit
            | CommandType::LookAtItem => Style::Observational,
            CommandType::AttackAgent => Style::Hostile,
            CommandType::DropItem
            | CommandType::PickUpItem
            | CommandType::GiveItemToAgent => Style::ItemTransfer,
            CommandType::Emote | CommandType::SpeakToAgent => Style::Social,
            CommandType::GetInventory => Style::SelfStatus,
            CommandType::GoExit => Style::Movement,
            CommandType::UpdateAgentIntent | CommandType::UpdateAgentMood => Style::InternalState,
            _ => Style::Neutral,
        }
    }

    /// The style of a command category under the category-centric policy.
    #[verifier::when_used_as_spec(spec_style)]
    pub fn style(self) -> (style: Style)
        ensures
            style == self.spec_style(),
    {
        match self {
            CommandType::LookAround
            | CommandType::LookAtAgent
            | CommandType::LookAtExit
            | CommandType::LookAtItem => Style::Observational,
            CommandType::AttackAgent => Style::Hostile,
            CommandType::DropItem
            | CommandType::PickUpItem
            | CommandType::GiveItemToAgent => Style::ItemTransfer,
            CommandType::Emote | CommandType::SpeakToAgent => Style::Social,
            CommandType::GetInventory => Style::SelfStatus,
            CommandType::GoExit => Style::Movement,
            CommandType::UpdateAgentIntent | CommandType::UpdateAgentMood => Style::InternalState,
            _ => Style::Neutral,
        }
    }
}

/// Each text of a list, in order, under one style.
pub open spec fn styled(texts: Seq<Seq<char>>, style: Style) -> Seq<StyledLineView> {
    Seq::new(texts.len(), |i: int| StyledLineView { text: texts[i], style })
}

/// The styled lines of an envelope.
///
/// Under the category-centric policy these are the narrative lines and then
/// the extra lines, all in the style of the command category. Under the
/// attribution-centric policy they are the actor label in the attribution
/// style, the narrative lines dimmed, and the extra lines highlighted.
pub open spec fn rendered(event: GameEventView, policy: RenderPolicy) -> Seq<StyledLineView> {
    match policy {
        RenderPolicy::CategoryCentric => styled(
            event.general_description,
            event.command_type.spec_style(),
        ) + styled(event.extra_lines(), event.command_type.spec_style()),
        RenderPolicy::AttributionCentric => seq![
            StyledLineView { text: event.label(), style: Style::Attribution },
        ] + styled(event.general_description, Style::Dimmed) + styled(
            event.extra_lines(),
            Style::Highlight,
        ),
    }
}

/// The styled lines of a batch: those of each envelope, in the order of the
/// batch.
pub open spec fn rendered_batch(events: Seq<GameEventView>, policy: RenderPolicy) -> Seq<
    StyledLineView,
>
    decreases events.len(),
{
    if events.len() == 0 {
        Seq::empty()
    } else {
        rendered_batch(events.drop_last(), policy) + rendered(events.last(), policy)
    }
}

/// Under the attribution-centric policy an envelope renders as one line for
/// the actor label, one for each narrative line and one for each extra line,
/// in that order and each in the style of its field.
pub proof fn lemma_attribution_layout(event: GameEventView)
    ensures
        rendered(event, RenderPolicy::AttributionCentric).len() == 1
            + event.general_description.len() + event.extra_lines().len(),
        rendered(event, RenderPolicy::AttributionCentric)[0] == (StyledLineView {
            text: event.label(),
            style: Style::Attribution,
        }),
        forall|i: int|
            0 <= i < event.general_description.len() ==> #[trigger] rendered(
                event,
                RenderPolicy::AttributionCentric,
            )[1 + i] == (StyledLineView {
                text: event.general_description[i],
                style: Style::Dimmed,
            }),
        forall|i: int|
            0 <= i < event.extra_lines().len() ==> #[trigger] rendered(
                event,
                RenderPolicy::AttributionCentric,
            )[1 + event.general_description.len() + i] == (StyledLineView {
                text: event.extra_lines()[i],
                style: Style::Highlight,
            }),
{
}

/// An envelope whose narrative is a single line renders, under the
/// attribution-centric policy, as exactly two lines where it has no extra
/// detail, and as exactly three where it has one extra line.
pub proof fn lemma_attribution_line_count(event: GameEventView)
    requires
        event.general_description.len() == 1,
    ensures
        event.extra_lines().len() == 0 ==> rendered(event, RenderPolicy::AttributionCentric).len()
            == 2,
        event.extra_lines().len() == 1 ==> rendered(event, RenderPolicy::AttributionCentric).len()
            == 3,
{
}

/// Under the category-centric policy every line of an envelope takes the
/// style of the command category.
pub proof fn lemma_category_layout(event: GameEventView)
    ensures
        rendered(event, RenderPolicy::CategoryCentric).len() == event.general_description.len()
            + event.extra_lines().len(),
        forall|i: int|
            0 <= i < rendered(event, RenderPolicy::CategoryCentric).len() ==> (#[trigger] rendered(
                event,
                RenderPolicy::CategoryCentric,
            )[i]).style == event.command_type.spec_style(),
{
}

/// Under the category-centric policy an attack renders in the hostile style,
/// line for line.
pub proof fn lemma_attack_is_hostile(event: GameEventView)
    requires
        event.command_type == CommandType::AttackAgent,
    ensures
        forall|i: int|
            0 <= i < rendered(event, RenderPolicy::CategoryCentric).len() ==> (#[trigger] rendered(
                event,
                RenderPolicy::CategoryCentric,
            )[i]).style == Style::Hostile,
{
}

/// Rendering never looks at the arguments of the command: two envelopes
/// that differ in nothing else render alike, under either policy.
pub proof fn lemma_render_ignores_arguments(
    event: GameEventView,
    arguments: Map<Seq<char>, JsonTree>,
    policy: RenderPolicy,
)
    ensures
        rendered(GameEventView { command_arguments: arguments, ..event }, policy) == rendered(
            event,
            policy,
        ),
{
}

/// Rendering keeps the order of a batch: the lines of two batches, one after
/// the other, are the lines of the first and then the lines of the second.
pub proof fn lemma_rendered_batch_concat(
    first: Seq<GameEventView>,
    second: Seq<GameEventView>,
    policy: RenderPolicy,
)
    ensures
        rendered_batch(first + second, policy) == rendered_batch(first, policy) + rendered_batch(
            second,
            policy,
        ),
    decreases second.len(),
{
    if second.len() == 0 {
        assert(first + second =~= first);
        assert(rendered_batch(first, policy) + rendered_batch(second, policy) =~= rendered_batch(
            first,
            policy,
        ));
    } else {
        lemma_rendered_batch_concat(first, second.drop_last(), policy);
        assert((first + second).drop_last() =~= first + second.drop_last());
        assert((first + second).last() == second.last());
        assert(rendered_batch(first + second, policy) =~= rendered_batch(first, policy)
            + rendered_batch(second, policy));
    }
}

/// A batch of one envelope renders as that envelope does.
pub proof fn lemma_rendered_batch_single(event: GameEventView, policy: RenderPolicy)
    ensures
        rendered_batch(seq![event], policy) == rendered(event, policy),
{
    let none = Seq::<GameEventView>::empty();
    assert(seq![event].drop_last() =~= none);
    assert(rendered_batch(none, policy) =~= Seq::empty());
    assert(rendered_batch(seq![event], policy) =~= rendered(event, policy));
}

/// Adds each text of `texts`, in order and under `style`, to the end of `out`.
fn push_styled(out: &mut Vec<StyledLine>, texts: &Vec<String>, style: Style)
    ensures
        styled_lines_of(final(out)@) == styled_lines_of(old(out)@) + styled(
            lines_of(texts@),
            style,
        ),
{
    let ghost before = styled_lines_of(out@);
    let mut i: usize = 0;
    while i < texts.len()
        invariant
            i <= texts.len(),
            styled_lines_of(out@) == before + styled(lines_of(texts@.take(i as int)), style),
        decreases texts.len() - i,
    {
        let ghost so_far = styled_lines_of(out@);
        out.push(StyledLine { text: texts[i].clone(), style });
        proof {
            let line = StyledLineView { text: texts[i as int]@, style };
            assert(styled_lines_of(out@) =~= so_far.push(line));
            assert(styled(lines_of(texts@.take(i + 1)), style) =~= styled(
                lines_of(texts@.take(i as int)),
                style,
            ).push(line));
        }
        i += 1;
    }
    proof {
        assert(texts@.take(i as int) == texts@);
    }
}

/// Renders one envelope under a policy.
pub fn render(event: &GameEventDTO, policy: RenderPolicy) -> (lines: Vec<StyledLine>)
    ensures
        styled_lines_of(lines@) == rendered(event@, policy),
{
    let mut lines: Vec<StyledLine> = Vec::new();
    let none: Vec<String> = Vec::new();
    let extra = match &event.extra_detail {
        Some(extra) => extra,
        None => &none,
    };
    assert(lines_of(extra@) =~= event@.extra_lines());
    match policy {
        RenderPolicy::CategoryCentric => {
            let style = event.command_type.style();
            push_styled(&mut lines, &event.general_description, style);
            push_styled(&mut lines, extra, style);
        },
        RenderPolicy::AttributionCentric => {
            let label = match &event.agent_name {
                Some(name) => name.clone(),
                None => event.agent_id.clone(),
            };
            lines.push(StyledLine { text: label, style: Style::Attribution });
            assert(styled_lines_of(lines@) =~= seq![
                StyledLineView { text: event@.label(), style: Style::Attribution },
            ]);
            push_styled(&mut lines, &event.general_description, Style::Dimmed);
            push_styled(&mut lines, extra, Style::Highlight);
        },
    }
    assert(styled_lines_of(lines@) =~= rendered(event@, policy));
    lines
}

/// Renders a batch under a policy, envelope by envelope, in the order of the
/// batch.
pub fn render_batch(batch: &Vec<GameEventDTO>, policy: RenderPolicy) -> (lines: Vec<StyledLine>)
    ensures
        styled_lines_of(lines@) == rendered_batch(events_of(batch@), policy),
{
    let mut lines: Vec<StyledLine> = Vec::new();
    let mut i: usize = 0;
    assert(styled_lines_of(lines@) =~= Seq::empty());
    while i < batch.len()
        invariant
            i <= batch.len(),
            styled_lines_of(lines@) == rendered_batch(events_of(batch@.take(i as int)), policy),
        decreases batch.len() - i,
    {
        let mut more = render(&batch[i], policy);
        let ghost before = styled_lines_of(lines@);
        let ghost added = styled_lines_of(more@);
        lines.append(&mut more);
        proof {
            assert(styled_lines_of(lines@) =~= before + added);
            let next = events_of(batch@.take(i + 1));
            assert(next.drop_last() =~= events_of(batch@.take(i as int)));
            assert(next.last() == batch[i as int]@);
        }
        i += 1;
    }
    proof {
        assert(batch@.take(i as int) == batch@);
    }
    lines
}

} // verus!
