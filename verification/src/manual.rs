//! The repair manual: the page-by-page book of procedures for undoing the
//! sabotage, opened from the HUD while a run is on.
//!
//! It is an overlay rather than a state: opening it neither stands the run
//! down nor stops the clock. What outlives it is the page being read, so a
//! closed manual opens again where it was left.
//!
//! Two kinds of line are not written until the run starts: the isolation
//! panel's setting, and the room index, a line per deck. The pages leave a
//! slot for each, and the slot is filled as the page is drawn.

use vstd::prelude::*;

use crate::difficulty::MAX_DECK_COUNT;
use crate::input::{Key, KeyInput};
use crate::level::{deck_index_line, index_line, RoomCodes};
use crate::panel::{printed, Panel};
use crate::text::{decimal, push_decimal, push_str};

verus! {

/// How many pages the manual has.
pub const PAGE_COUNT: usize = 6;

/// The shape of a page: so many lines of so many characters. The box the
/// pages are set in is sized to these.
pub const MAX_PAGE_LINES: usize = 8;
pub const MAX_LINE_CHARS: usize = 62;

/// One line of a page as it is written.
#[derive(Debug, Clone, Copy)]
pub enum PageLine {
    /// Printed as written.
    Text(&'static str),
    /// The isolation panel's setting for this run.
    SwitchSettings,
    /// The room index: a line per deck, code first.
    RoomIndex,
}

/// Each page's heading.
pub open spec fn page_heading(page: int) -> &'static str {
    if page == 0 {
        "Read This First"
    } else if page == 1 {
        "Room Index"
    } else if page == 2 {
        "Isolation Panel"
    } else if page == 3 {
        "1. Damaged Signal Relay Notes"
    } else if page == 4 {
        "2. Coolant Regulator Notes"
    } else {
        "Sign-Off"
    }
}

/// Each page's lines, as written.
pub open spec fn page_content(page: int) -> Seq<PageLine> {
    if page == 0 {
        seq![
            PageLine::Text("The rocket leaves at T-00:00 whether or not it is airworthy."),
            PageLine::Text("Every room aboard was breached while the pad was clear, and"),
            PageLine::Text("one panel was thrown out of true besides. Each kind of job"),
            PageLine::Text("has a page. The airlock stays red until all of them are done."),
            PageLine::Text(""),
            PageLine::Text("Turn pages with the arrow keys. Esc puts the manual away."),
            PageLine::Text("The clock does not stop while you have your nose in it."),
        ]
    } else if page == 1 {
        seq![
            PageLine::Text("Every room carries its code on a board inside the doorway. The"),
            PageLine::Text("readout under the clock gives the code of the room wanted:"),
            PageLine::Text(""),
            PageLine::RoomIndex,
        ]
    } else if page == 2 {
        seq![
            PageLine::Text("One room's isolation panel was thrown out of true. Which room"),
            PageLine::Text("changes with the shift roster — the readout under the clock"),
            PageLine::Text("names it. Stand at a switch and press E to throw it."),
            PageLine::Text(""),
            PageLine::Text("Left to right, this shift's panel is to be left set:"),
            PageLine::SwitchSettings,
            PageLine::Text(""),
            PageLine::Text("The three lamps are wired to the set: they come up together."),
        ]
    } else if page == 3 {
        seq![
            PageLine::Text("Fault: a snapped pair feeding the ignition run."),
            PageLine::Text("Found where the deck arcs over: walk into it to take it on."),
            PageLine::Text(""),
            PageLine::Text("Grip both loose ends and work them back together."),
            PageLine::Text("Tap A, then D, in quick alternation to pull them tight."),
            PageLine::Text(""),
            PageLine::Text("If one hand leads too long, the gap widens again."),
            PageLine::Text("Keep an even rhythm until the crackle holds steady."),
        ]
    } else if page == 4 {
        seq![
            PageLine::Text("Fault: the regulator was backed off and the line runs flat."),
            PageLine::Text("Its gauge stands in a room of its own, as the relays do."),
            PageLine::Text(""),
            PageLine::Text("Hold SPACE to feed the line. Let go and it bleeds back."),
            PageLine::Text("Settle the needle inside the marked band and keep it there."),
            PageLine::Text(""),
            PageLine::Text("The feed keeps pushing after you let go, so trim early."),
            PageLine::Text("Past the red it ruptures — it vents, and you start again."),
        ]
    } else {
        seq![
            PageLine::Text("The airlock stays locked until all three are signed off:"),
            PageLine::Text(""),
            PageLine::Text("  Isolation panel set, all three lamps up."),
            PageLine::Text("  Signal relay jointed, the crackle steady."),
            PageLine::Text("  Coolant regulator sealed, the needle held in band."),
            PageLine::Text(""),
            PageLine::Text("Then get clear. The clock does not wait for the paperwork."),
        ]
    }
}

/// How the manual spells out one switch: its place, counting from one on
/// the left, and which way it is to be left.
pub open spec fn switch_entry(place: nat, up: bool) -> Seq<char> {
    decimal(place + 1) + ": "@ + (if up { "UP"@ } else { "DOWN"@ })
}

/// The first `n` switches spelt out, left to right, with a comma between.
pub open spec fn switch_entries(combination: Seq<bool>, n: nat) -> Seq<char>
    decreases n,
{
    if n == 0 {
        Seq::empty()
    } else if n == 1 {
        switch_entry(0, combination[0])
    } else {
        switch_entries(combination, (n - 1) as nat) + ", "@ + switch_entry(
            (n - 1) as nat,
            combination[n - 1],
        )
    }
}

/// The line the isolation page prints the setting on: the run of `U` and
/// `D` letters, then every switch spelt out in brackets.
pub open spec fn settings_line(combination: Seq<bool>) -> Seq<char> {
    printed(combination) + "  ("@ + switch_entries(combination, combination.len()) + ")"@
}

/// Whether `text` appears somewhere in `s`.
pub open spec fn holds_text(s: Seq<char>, text: Seq<char>) -> bool {
    exists|k: int| 0 <= k && k + text.len() <= s.len() && #[trigger] s.subrange(k, k + text.len()) == text
}

/// The printed lines one written line comes to.
pub open spec fn printed_lines(
    line: PageLine,
    codes: Seq<Seq<char>>,
    panel: Panel,
    deck_count: nat,
) -> Seq<Seq<char>> {
    match line {
        PageLine::Text(s) => seq![s@],
        PageLine::SwitchSettings => seq![settings_line(panel.combination@)],
        PageLine::RoomIndex => Seq::new(deck_count, |deck: int| index_line(codes, deck as nat)),
    }
}

/// The printed lines a run of written lines comes to, in order.
pub open spec fn expand(
    lines: Seq<PageLine>,
    codes: Seq<Seq<char>>,
    panel: Panel,
    deck_count: nat,
) -> Seq<Seq<char>>
    decreases lines.len(),
{
    if lines.len() == 0 {
        Seq::empty()
    } else {
        expand(lines.drop_last(), codes, panel, deck_count) + printed_lines(
            lines.last(),
            codes,
            panel,
            deck_count,
        )
    }
}

/// Lines set one under another.
pub open spec fn joined(lines: Seq<Seq<char>>) -> Seq<char>
    decreases lines.len(),
{
    if lines.len() == 0 {
        Seq::empty()
    } else if lines.len() == 1 {
        lines[0]
    } else {
        joined(lines.drop_last()) + "\n"@ + lines.last()
    }
}

/// The page a turn of `by` lands on from `page`: held at both covers.
pub open spec fn turned_to(page: int, by: int) -> int {
    if page + by < 0 {
        0
    } else if page + by > PAGE_COUNT - 1 {
        (PAGE_COUNT - 1) as int
    } else {
        page + by
    }
}

/// The `Page n / 6` readout, counting from one.
pub open spec fn page_label(page: int) -> Seq<char> {
    "Page "@ + decimal((page + 1) as nat) + " / "@ + decimal(PAGE_COUNT as nat)
}

/// Which page is open. It outlives the manual being put away, and is reset
/// when a run starts.
#[derive(Debug, Clone, Copy, PartialEq, Eq, Structural)]
pub struct ManualPage(pub usize);

impl Default for ManualPage {
    /// A run opens the manual on its first page.
    fn default() -> (page: Self)
        ensures
            page.0 == 0,
    {
        ManualPage(0)
    }
}

/// The page's lines as written.
pub fn page_lines(page: usize) -> (lines: Vec<PageLine>)
    ensures
        lines@ == page_content(page as int),
{
    if page == 0 {
        vec![
            PageLine::Text("The rocket leaves at T-00:00 whether or not it is airworthy."),
            PageLine::Text("Every room aboard was breached while the pad was clear, and"),
            PageLine::Text("one panel was thrown out of true besides. Each kind of job"),
            PageLine::Text("has a page. The airlock stays red until all of them are done."),
            PageLine::Text(""),
            PageLine::Text("Turn pages with the arrow keys. Esc puts the manual away."),
            PageLine::Text("The clock does not stop while you have your nose in it."),
        ]
    } else if page == 1 {
        vec![
            PageLine::Text("Every room carries its code on a board inside the doorway. The"),
            PageLine::Text("readout under the clock gives the code of the room wanted:"),
            PageLine::Text(""),
            PageLine::RoomIndex,
        ]
    } else if page == 2 {
        vec![
            PageLine::Text("One room's isolation panel was thrown out of true. Which room"),
            PageLine::Text("changes with the shift roster — the readout under the clock"),
            PageLine::Text("names it. Stand at a switch and press E to throw it."),
            PageLine::Text(""),
            PageLine::Text("Left to right, this shift's panel is to be left set:"),
            PageLine::SwitchSettings,
            PageLine::Text(""),
            PageLine::Text("The three lamps are wired to the set: they come up together."),
        ]
    } else if page == 3 {
        vec![
            PageLine::Text("Fault: a snapped pair feeding the ignition run."),
            PageLine::Text("Found where the deck arcs over: walk into it to take it on."),
            PageLine::Text(""),
            PageLine::Text("Grip both loose ends and work them back together."),
            PageLine::Text("Tap A, then D, in quick alternation to pull them tight."),
            PageLine::Text(""),
            PageLine::Text("If one hand leads too long, the gap widens again."),
            PageLine::Text("Keep an even rhythm until the crackle holds steady."),
        ]
    } else if page == 4 {
        vec![
            PageLine::Text("Fault: the regulator was backed off and the line runs flat."),
            PageLine::Text("Its gauge stands in a room of its own, as the relays do."),
            PageLine::Text(""),
            PageLine::Text("Hold SPACE to feed the line. Let go and it bleeds back."),
            PageLine::Text("Settle the needle inside the marked band and keep it there."),
            PageLine::Text(""),
            PageLine::Text("The feed keeps pushing after you let go, so trim early."),
            PageLine::Text("Past the red it ruptures — it vents, and you start again."),
        ]
    } else {
        vec![
            PageLine::Text("The airlock stays locked until all three are signed off:"),
            PageLine::Text(""),
            PageLine::Text("  Isolation panel set, all three lamps up."),
            PageLine::Text("  Signal relay jointed, the crackle steady."),
            PageLine::Text("  Coolant regulator sealed, the needle held in band."),
            PageLine::Text(""),
            PageLine::Text("Then get clear. The clock does not wait for the paperwork."),
        ]
    }
}

impl ManualPage {
    /// Turns `by` pages, held at both covers rather than wrapping round.
    pub fn turn(&mut self, by: isize)
        requires
            old(self).0 < PAGE_COUNT,
        ensures
            final(self).0 == turned_to(old(self).0 as int, by as int),
    {
        let at = self.0 as isize;
        let last = (PAGE_COUNT - 1) as isize;
        self.0 = if by < 0 && at + by < 0 {
            0
        } else if by > last || at + by > last {
            PAGE_COUNT - 1
        } else {
            (at + by) as usize
        };
    }

    /// The open page's heading.
    pub fn heading(self) -> (s: &'static str)
        ensures
            s == page_heading(self.0 as int),
    {
        if self.0 == 0 {
            "Read This First"
        } else if self.0 == 1 {
            "Room Index"
        } else if self.0 == 2 {
            "Isolation Panel"
        } else if self.0 == 3 {
            "1. Damaged Signal Relay Notes"
        } else if self.0 == 4 {
            "2. Coolant Regulator Notes"
        } else {
            "Sign-Off"
        }
    }

    /// The `Page n / 6` readout between the manual's nav buttons.
    pub fn label(self) -> (s: String)
        requires
            self.0 < PAGE_COUNT,
        ensures
            s@ == page_label(self.0 as int),
    {
        let mut s = String::new();
        push_str(&mut s, "Page ");
        push_decimal(&mut s, self.0 as u64 + 1);
        push_str(&mut s, " / ");
        push_decimal(&mut s, PAGE_COUNT as u64);
        s
    }
}

/// The isolation page's setting line for `panel`.
fn settings_text(panel: &Panel) -> (s: String)
    ensures
        s@ == settings_line(panel.combination@),
{
    let mut s = panel.printed_settings();
    push_str(&mut s, "  (");
    let ghost head = printed(panel.combination@) + "  ("@;
    let mut i: usize = 0;
    while i < panel.combination.len()
        invariant
            i <= panel.combination@.len(),
            head == printed(panel.combination@) + "  ("@,
            s@ == head + switch_entries(panel.combination@, i as nat),
        decreases panel.combination@.len() - i,
    {
        let ghost before = s@;
        if i > 0 {
            push_str(&mut s, ", ");
        }
        push_decimal(&mut s, i as u64 + 1);
        push_str(&mut s, ": ");
        if panel.combination[i] {
            push_str(&mut s, "UP");
        } else {
            push_str(&mut s, "DOWN");
        }
        proof {
            let c = panel.combination@;
            let entry = switch_entry(i as nat, c[i as int]);
            if i == 0 {
                assert(s@ =~= before + entry);
                assert(switch_entries(c, 1) == entry);
            } else {
                assert(s@ =~= before + ", "@ + entry);
                assert(switch_entries(c, (i + 1) as nat) == switch_entries(c, i as nat) + ", "@ + entry);
            }
            assert(s@ =~= head + switch_entries(c, (i + 1) as nat));
        }
        i = i + 1;
    }
    push_str(&mut s, ")");
    s
}

/// Sets `line` under what `out` holds, `count` lines so far.
fn append_line(out: &mut String, Ghost(so_far): Ghost<Seq<Seq<char>>>, count: usize, line: &str)
    requires
        old(out)@ == joined(so_far),
        count == so_far.len(),
    ensures
        final(out)@ == joined(so_far.push(line@)),
{
    assert(so_far.push(line@).drop_last() =~= so_far);
    if count > 0 {
        push_str(out, "\n");
    }
    push_str(out, line);
}

/// The open page's body, with the run's panel setting and room index
/// printed onto the lines the page leaves for them.
pub fn body_text(codes: &RoomCodes, page: ManualPage, panel: &Panel, deck_count: usize) -> (s: String)
    requires
        deck_count <= MAX_DECK_COUNT,
    ensures
        s@ == joined(expand(page_content(page.0 as int), codes.codes(), *panel, deck_count as nat)),
{
    let lines = page_lines(page.0);
    let ghost written = lines@;
    let ghost all_codes = codes.codes();
    let mut out = String::new();
    let mut count: usize = 0;
    let ghost mut printed_so_far: Seq<Seq<char>> = Seq::empty();
    let mut i: usize = 0;
    while i < lines.len()
        invariant
            i <= lines@.len(),
            lines@ == written,
            written.len() <= 8,
            deck_count <= MAX_DECK_COUNT,
            all_codes == codes.codes(),
            printed_so_far == expand(written.take(i as int), all_codes, *panel, deck_count as nat),
            count == printed_so_far.len(),
            count <= 8 * i,
            out@ == joined(printed_so_far),
        decreases lines@.len() - i,
    {
        proof {
            assert(written.take(i + 1).drop_last() =~= written.take(i as int));
        }
        match lines[i] {
            PageLine::Text(text) => {
                append_line(&mut out, Ghost(printed_so_far), count, text);
                proof {
                    printed_so_far = printed_so_far.push(text@);
                }
                count = count + 1;
            },
            PageLine::SwitchSettings => {
                let setting = settings_text(panel);
                append_line(&mut out, Ghost(printed_so_far), count, setting.as_str());
                proof {
                    printed_so_far = printed_so_far.push(setting@);
                }
                count = count + 1;
            },
            PageLine::RoomIndex => {
                let ghost before = printed_so_far;
                let mut deck: usize = 0;
                while deck < deck_count
                    invariant
                        deck <= deck_count <= MAX_DECK_COUNT,
                        all_codes == codes.codes(),
                        count == printed_so_far.len(),
                        count == before.len() + deck,
                        before.len() <= 8 * i,
                        i < 8,
                        printed_so_far == before + Seq::new(
                            deck as nat,
                            |d: int| index_line(all_codes, d as nat),
                        ),
                        out@ == joined(printed_so_far),
                    decreases deck_count - deck,
                {
                    let line = deck_index_line(codes, deck);
                    append_line(&mut out, Ghost(printed_so_far), count, line.as_str());
                    proof {
                        let next = before + Seq::new(
                            (deck + 1) as nat,
                            |d: int| index_line(all_codes, d as nat),
                        );
                        assert(printed_so_far.push(line@) =~= next);
                        printed_so_far = printed_so_far.push(line@);
                    }
                    count = count + 1;
                    deck = deck + 1;
                }
                proof {
                    assert(printed_so_far =~= before + printed_lines(
                        PageLine::RoomIndex,
                        all_codes,
                        *panel,
                        deck_count as nat,
                    ));
                }
            },
        }
        i = i + 1;
    }
    proof {
        assert(written.take(i as int) =~= written);
    }
    out
}

/// The manual's nav buttons.
#[derive(Debug, Clone, Copy, PartialEq, Eq, Structural)]
pub enum ManualNav {
    Previous,
    Next,
    Close,
}

/// What the manual's controls do this frame to the panel on screen.
#[derive(Debug, Clone, Copy, PartialEq, Eq, Structural)]
pub enum ManualCommand {
    Stay,
    Open,
    Close,
}

/// What the manual's controls choose with the manual open: `M` or the HUD
/// button closes it, unless a nav button, an arrow key or Escape says
/// otherwise, each overriding the one before.
pub open spec fn manual_choice(toggled: bool, nav: Option<ManualNav>, keys: KeyInput) -> Option<
    ManualNav,
> {
    if keys.just_pressed@.contains(Key::Escape) {
        Some(ManualNav::Close)
    } else if keys.just_pressed@.contains(Key::ArrowRight) {
        Some(ManualNav::Next)
    } else if keys.just_pressed@.contains(Key::ArrowLeft) {
        Some(ManualNav::Previous)
    } else if nav is Some {
        nav
    } else if toggled {
        Some(ManualNav::Close)
    } else {
        None
    }
}

/// Opening, closing and paging, which share the keyboard: `M` (or the HUD
/// button) opens a shut manual and shuts an open one; with it open, the
/// arrow keys and the nav buttons turn pages, and Escape closes it, eating
/// the press so that nothing later in the frame takes it as a request to
/// abort the mission.
pub fn manual_controls(
    is_open: bool,
    open_clicked: bool,
    nav_clicked: Option<ManualNav>,
    keys: &mut KeyInput,
    page: &mut ManualPage,
) -> (command: ManualCommand)
    requires
        old(page).0 < PAGE_COUNT,
    ensures
        final(page).0 < PAGE_COUNT,
        ({
            let toggled = open_clicked || old(keys).just_pressed@.contains(Key::Letter('M'));
            if !is_open {
                &&& command == if toggled {
                    ManualCommand::Open
                } else {
                    ManualCommand::Stay
                }
                &&& *final(page) == *old(page)
                &&& *final(keys) == *old(keys)
            } else {
                &&& final(keys).held@ == old(keys).held@
                &&& final(keys).just_pressed@ == if old(keys).just_pressed@.contains(Key::Escape) {
                    old(keys).just_pressed@.filter(|k: Key| k != Key::Escape)
                } else {
                    old(keys).just_pressed@
                }
                &&& match manual_choice(toggled, nav_clicked, *old(keys)) {
                    Some(ManualNav::Previous) => command == ManualCommand::Stay && final(page).0
                        == turned_to(old(page).0 as int, -1),
                    Some(ManualNav::Next) => command == ManualCommand::Stay && final(page).0
                        == turned_to(old(page).0 as int, 1),
                    Some(ManualNav::Close) => command == ManualCommand::Close && *final(page)
                        == *old(page),
                    None => command == ManualCommand::Stay && *final(page) == *old(page),
                }
            }
        }),
{
    let toggled = open_clicked || keys.just_pressed(Key::Letter('M'));
    if !is_open {
        return if toggled {
            ManualCommand::Open
        } else {
            ManualCommand::Stay
        };
    }
    let mut chosen = if toggled {
        Some(ManualNav::Close)
    } else {
        None
    };
    if nav_clicked.is_some() {
        chosen = nav_clicked;
    }
    if keys.just_pressed(Key::ArrowLeft) {
        chosen = Some(ManualNav::Previous);
    }
    if keys.just_pressed(Key::ArrowRight) {
        chosen = Some(ManualNav::Next);
    }
    if keys.just_pressed(Key::Escape) {
        keys.clear_just_pressed(Key::Escape);
        chosen = Some(ManualNav::Close);
    }
    match chosen {
        Some(ManualNav::Previous) => {
            page.turn(-1);
            ManualCommand::Stay
        },
        Some(ManualNav::Next) => {
            page.turn(1);
            ManualCommand::Stay
        },
        Some(ManualNav::Close) => ManualCommand::Close,
        None => ManualCommand::Stay,
    }
}

/// The book does not wrap: however far it is turned, either way, it stays
/// between its covers, and turning past a cover leaves the reader on it.
pub proof fn law_the_book_does_not_wrap_at_either_end(page: int, by: int)
    requires
        0 <= page < PAGE_COUNT,
    ensures
        0 <= turned_to(page, by) < PAGE_COUNT,
        by <= -page ==> turned_to(page, by) == 0,
        by >= PAGE_COUNT - 1 - page ==> turned_to(page, by) == PAGE_COUNT - 1,
        page < PAGE_COUNT - 1 ==> turned_to(turned_to(page, 1), -1) == page,
        page > 0 ==> turned_to(turned_to(page, -1), 1) == page,
{
}

/// Escape closing the manual is eaten: what is left of the frame's presses
/// no longer holds it, so the confirm-quit dialog does not see it.
pub proof fn law_escape_closes_the_manual_without_reaching_the_quit_dialog(pressed: Seq<Key>)
    ensures
        !pressed.filter(|k: Key| k != Key::Escape).contains(Key::Escape),
{
    let left = pressed.filter(|k: Key| k != Key::Escape);
    if left.contains(Key::Escape) {
        let i = choose|i: int| 0 <= i < left.len() && left[i] == Key::Escape;
        pressed.lemma_filter_pred(|k: Key| k != Key::Escape, i);
        assert(false);
    }
}

/// Every one of the first `n` switches is spelt out among them.
proof fn lemma_entry_among_entries(c: Seq<bool>, n: nat, i: nat)
    requires
        i < n <= c.len(),
    ensures
        holds_text(switch_entries(c, n), switch_entry(i, c[i as int])),
    decreases n,
{
    let e = switch_entry(i, c[i as int]);
    let s = switch_entries(c, n);
    if n == 1 {
        let k: int = 0;
        assert(s.subrange(k, k + e.len()) =~= e);
        assert(holds_text(s, e));
    } else if i == n - 1 {
        let k = s.len() - e.len();
        assert(s.subrange(k, k + e.len()) =~= e);
        assert(holds_text(s, e));
    } else {
        lemma_entry_among_entries(c, (n - 1) as nat, i);
        let prev = switch_entries(c, (n - 1) as nat);
        let k = choose|k: int|
            0 <= k && k + e.len() <= prev.len() && #[trigger] prev.subrange(k, k + e.len()) == e;
        assert(s.subrange(k, k + e.len()) =~= prev.subrange(k, k + e.len()));
        assert(holds_text(s, e));
    }
}

/// The isolation panel's page prints this run's setting on the line it
/// leaves for it: the run of `U` and `D` letters first, and every switch
/// spelt out as its place and `UP` or `DOWN`. The room index page prints a
/// line for every deck, each naming both that deck's rooms by their codes.
pub proof fn law_the_manual_prints_this_run_s_setting_and_codes(
    codes: Seq<Seq<char>>,
    panel: Panel,
    deck_count: nat,
)
    ensures
        expand(page_content(2), codes, panel, deck_count).len() == 8,
        expand(page_content(2), codes, panel, deck_count)[5] == settings_line(panel.combination@),
        expand(page_content(2), codes, panel, deck_count)[5].subrange(
            0,
            panel.combination@.len() as int,
        ) == printed(panel.combination@),
        forall|i: int|
            0 <= i < panel.combination@.len() ==> holds_text(
                expand(page_content(2), codes, panel, deck_count)[5],
                #[trigger] switch_entry(i as nat, panel.combination@[i]),
            ),
        expand(page_content(1), codes, panel, deck_count).len() == 3 + deck_count,
        forall|deck: int|
            0 <= deck < deck_count ==> #[trigger] expand(page_content(1), codes, panel, deck_count)[3
                + deck] == index_line(codes, deck as nat),
{
    reveal_with_fuel(expand, 9);
    let c = panel.combination@;
    let line = settings_line(c);
    assert(expand(page_content(2), codes, panel, deck_count)[5] == line);
    assert(printed(c).len() == c.len());
    assert(line.subrange(0, c.len() as int) =~= printed(c));
    assert forall|i: int| 0 <= i < c.len() implies holds_text(
        line,
        #[trigger] switch_entry(i as nat, c[i]),
    ) by {
        let e = switch_entry(i as nat, c[i]);
        let entries = switch_entries(c, c.len());
        lemma_entry_among_entries(c, c.len(), i as nat);
        let k = choose|k: int|
            0 <= k && k + e.len() <= entries.len() && #[trigger] entries.subrange(k, k + e.len()) == e;
        let head = printed(c) + "  ("@;
        let offset = head.len();
        assert(line == head + entries + ")"@);
        assert(line.subrange(offset + k, offset + k + e.len()) =~= entries.subrange(k, k + e.len()));
        assert(holds_text(line, e));
    }
}

} // verus!
