//! The checkbox menu in which the operator picks the countries to block:
//! arrow keys move the cursor, space toggles, enter confirms.
//!
//! The caller reads the keys and writes the menu; this module keeps the
//! menu's state, renders it, and says what was chosen.

use vstd::prelude::*;

use crate::text::{decimal, push_decimal, string_views};

verus! {

/// Standard list of common ISO country codes as recommended minimum for
/// selection as State-linked Advanced Persistent Threat (APT) origins or
/// comprehensively sanctioned infrastructure.
///
/// Not a perfect filter for human intent, but a necessary and effective
/// shield against automated infrastructure noise.
/// ### Defensibility & Authority References:
/// - **CN (China)**:
///   - [CISA China Threat Overview](https://www.cisa.gov/topics/cyber-threats-and-advisories/nation-state-cyber-actors/china)
///   - See Advisory [AA26-113A](https://www.cisa.gov/news-events/cybersecurity-advisories/aa26-113a) regarding China-nexus dynamic covert networks targeting critical infrastructure.
/// - **RU (Russia)**:
///   - [CISA Russia Threat Overview](https://www.cisa.gov/topics/cyber-threats-and-advisories/advanced-persistent-threats/russia)
///   - [OFAC Russia-Related Sanctions](https://ofac.treasury.gov/)
///   - See Advisory [AA26-194a](https://www.cisa.gov/news-events/cybersecurity-advisories/aa26-194a) targeting critical network infrastructure.
/// - **KP (North Korea)**:
///   - [CISA North Korea Threat Overview](https://www.cisa.gov/topics/cyber-threats-and-advisories/advanced-persistent-threats/north-korea)
///   - [OFAC Comprehensive Sanctions](https://ofac.treasury.gov/sanctions-programs-and-country-information/where-is-ofacs-country-list-what-countries-do-i-need-to-worry-about-in-terms-of-us-sanctions)
///   - Reference Joint Advisory [AA24-207A](https://www.cisa.gov/news-events/cybersecurity-advisories/aa24-207a) on state-sponsored global espionage.
/// - **IR (Iran)**:
///   - [CISA Nation-State Threats Framework](https://www.cisa.gov/topics/cyber-threats-and-advisories/nation-state-cyber-actors)
///   - [OFAC Comprehensive Sanctions Program](https://ofac.treasury.gov/)
/// - **CU (Cuba)**:
///   - [OFAC Cuba Sanctions Program](https://treasury.gov) - Maintained under active, comprehensive US trade embargoes.
/// - **BY (Belarus)**:
///   - [OFAC Belarus Sanctions](https://ofac.treasury.gov/sanctions-programs-and-country-information) - Subject to broad hybrid/sectoral restrictions, layered on top of structural industry blocks.
///   - Broadly barred by global tech infrastructure issuers (e.g., [Sectigo Banned Country Policies](https://www.sectigo.com/knowledge-base/detail/Banned-Country-List-1527076085907)) alongside Russia.
pub const AVAILABLE_COUNTRIES: [(&'static str, &'static str); 6] = [
    ("CN", "China"),
    ("RU", "Russia"),
    ("KP", "North Korea"),
    ("IR", "Iran"),
    ("CU", "Cuba"),
    ("BY", "Belarus"),
];

/// The number of countries in the menu.
pub const COUNTRY_COUNT: usize = 6;

/// The code of the `i`-th country of the menu.
pub open spec fn code(i: int) -> Seq<char> {
    AVAILABLE_COUNTRIES@[i].0@
}

/// The name of the `i`-th country of the menu.
pub open spec fn name(i: int) -> Seq<char> {
    AVAILABLE_COUNTRIES@[i].1@
}

/// The menu's state, as the contracts speak of it.
pub struct SelectorView {
    /// Index of the highlighted row.
    pub cursor: int,
    /// Whether each country is ticked, in menu order.
    pub selected: Seq<bool>,
    /// Whether the menu has not been drawn yet.
    pub first_render: bool,
    /// After an escape byte, the bytes of the escape sequence read so far.
    pub pending: Option<Seq<u8>>,
}

/// The interactive country menu.
pub struct CountrySelector {
    cursor: usize,
    selected: Vec<bool>,
    first_render: bool,
    escape: bool,
    escape_first: Option<u8>,
}

impl View for CountrySelector {
    type V = SelectorView;

    closed spec fn view(&self) -> SelectorView {
        SelectorView {
            cursor: self.cursor as int,
            selected: self.selected@,
            first_render: self.first_render,
            pending: if !self.escape {
                None
            } else {
                match self.escape_first {
                    None => Some(seq![]),
                    Some(b) => Some(seq![b]),
                }
            },
        }
    }
}

/// A menu state that can occur: one tick per country, the cursor on a row.
pub open spec fn selector_wf(v: SelectorView) -> bool {
    &&& v.selected.len() == 6
    &&& 0 <= v.cursor < 6
    &&& v.pending matches Some(q) ==> q.len() < 2
}

/// What feeding one input byte to the menu came to.
pub enum KeyFeed {
    /// Part of an escape sequence; nothing to redraw yet.
    Pending,
    /// A key was handled; redraw the menu.
    Handled,
    /// Enter: the choice is confirmed.
    Confirmed,
}

/// The menu after the input byte `b`: an escape byte and the two bytes
/// after it make one key; enter confirms.
pub open spec fn after_byte(v: SelectorView, b: u8) -> (SelectorView, KeyFeed) {
    match v.pending {
        Some(q) => if q.len() == 0 {
            (SelectorView { pending: Some(seq![b]), ..v }, KeyFeed::Pending)
        } else {
            (
                SelectorView { pending: None, ..after_key(v, 27, Some((q[0], b))).0 },
                KeyFeed::Handled,
            )
        },
        None => if b == 27 {
            (SelectorView { pending: Some(seq![]), ..v }, KeyFeed::Pending)
        } else if after_key(v, b, None).1 {
            (after_key(v, b, None).0, KeyFeed::Confirmed)
        } else {
            (after_key(v, b, None).0, KeyFeed::Handled)
        },
    }
}

/// The menu after reading `bytes` one by one, stopping at the confirming
/// byte, and how many bytes were read.
pub open spec fn feed_all(v: SelectorView, bytes: Seq<u8>) -> (SelectorView, nat)
    decreases bytes.len(),
{
    if bytes.len() == 0 {
        (v, 0)
    } else {
        let (w, f) = after_byte(v, bytes[0]);
        if f is Confirmed {
            (w, 1)
        } else {
            (feed_all(w, bytes.drop_first()).0, feed_all(w, bytes.drop_first()).1 + 1)
        }
    }
}

/// The menu after the key `byte` (with, after an escape byte, the two
/// bytes that followed it, where they could be read), and whether the key
/// confirms the choice.
pub open spec fn after_key(v: SelectorView, byte: u8, escape: Option<(u8, u8)>) -> (
    SelectorView,
    bool,
) {
    if byte == 10 || byte == 13 {
        (v, true)
    } else if byte == 32 {
        (SelectorView { selected: v.selected.update(v.cursor, !v.selected[v.cursor]), ..v }, false)
    } else if byte == 27 {
        match escape {
            Some((b0, b1)) => if b0 == 91 && b1 == 65 {
                (SelectorView { cursor: if v.cursor > 0 {
                    v.cursor - 1
                } else {
                    0
                }, ..v }, false)
            } else if b0 == 91 && b1 == 66 && v.cursor < 5 {
                (SelectorView { cursor: v.cursor + 1, ..v }, false)
            } else {
                (v, false)
            },
            None => (v, false),
        }
    } else {
        (v, false)
    }
}

/// The tick box of a row.
pub open spec fn checkbox(ticked: bool) -> Seq<char> {
    if ticked {
        "[x]"@
    } else {
        "[ ]"@
    }
}

/// Row `i` of the menu; the highlighted row is bold cyan and marked `>`.
pub open spec fn row_text(v: SelectorView, i: int) -> Seq<char> {
    if i == v.cursor {
        "\r\x1b[K\x1b[36;1m > "@ + checkbox(v.selected[i]) + " "@ + code(i) + " - "@ + name(i)
            + "\x1b[0m\n"@
    } else {
        "\r\x1b[K   "@ + checkbox(v.selected[i]) + " "@ + code(i) + " - "@ + name(i) + "\n"@
    }
}

/// The first `n` rows of the menu.
pub open spec fn rows_text(v: SelectorView, n: int) -> Seq<char>
    decreases n,
{
    if n <= 0 {
        seq![]
    } else {
        rows_text(v, n - 1) + row_text(v, n - 1)
    }
}

/// The text that draws the menu: after the first drawing it first moves
/// the cursor up over the previous one.
pub open spec fn menu_text(v: SelectorView) -> Seq<char> {
    (if v.first_render {
        seq![]
    } else {
        "\x1b["@ + decimal(6) + "A"@
    }) + rows_text(v, 6)
}

/// The codes of the ticked countries among the first `n`, in menu order.
pub open spec fn ticked_codes(selected: Seq<bool>, n: int) -> Seq<Seq<char>>
    decreases n,
{
    if n <= 0 {
        seq![]
    } else {
        ticked_codes(selected, n - 1) + (if selected[n - 1] {
            seq![code(n - 1)]
        } else {
            seq![]
        })
    }
}

/// `v` with the flag at `c` inverted.
fn toggle_at(v: &Vec<bool>, c: usize) -> (r: Vec<bool>)
    requires
        c < v@.len(),
    ensures
        r@ == v@.update(c as int, !v@[c as int]),
{
    let mut r: Vec<bool> = Vec::new();
    let mut i: usize = 0;
    while i < v.len()
        invariant
            c < v@.len(),
            i <= v@.len(),
            r@ == v@.update(c as int, !v@[c as int]).take(i as int),
        decreases v@.len() - i,
    {
        if i == c {
            r.push(!v[i]);
        } else {
            r.push(v[i]);
        }
        i = i + 1;
        assert(r@ =~= v@.update(c as int, !v@[c as int]).take(i as int));
    }
    assert(r@ =~= v@.update(c as int, !v@[c as int]));
    r
}

impl CountrySelector {
    #[verifier::type_invariant]
    spec fn inv(&self) -> bool {
        selector_wf(self@)
    }

    /// A new menu: every country ticked, the cursor on the first row, not
    /// drawn yet.
    pub fn new() -> (s: CountrySelector)
        ensures
            s@.cursor == 0,
            s@.selected == Seq::new(6, |i: int| true),
            s@.first_render,
            s@.pending is None,
            selector_wf(s@),
    {
        let mut selected: Vec<bool> = Vec::new();
        let mut i: usize = 0;
        while i < COUNTRY_COUNT
            invariant
                i <= 6,
                selected@ == Seq::new(i as nat, |j: int| true),
            decreases 6 - i,
        {
            selected.push(true);
            i = i + 1;
            assert(selected@ =~= Seq::new(i as nat, |j: int| true));
        }
        CountrySelector {
            cursor: 0,
            selected,
            first_render: true,
            escape: false,
            escape_first: None,
        }
    }

    /// Applies the key `byte` (with, after an escape byte, the two bytes
    /// that followed it, or `None` where they could not be read); true when
    /// the key confirms the choice.
    pub fn handle_key(&mut self, byte: u8, escape: Option<(u8, u8)>) -> (done: bool)
        ensures
            (final(self)@, done) == after_key(old(self)@, byte, escape),
            selector_wf(old(self)@),
            selector_wf(final(self)@),
    {
        proof {
            use_type_invariant(&*self);
        }
        if byte == 10 || byte == 13 {
            return true;
        }
        if byte == 32 {
            let toggled = toggle_at(&self.selected, self.cursor);
            self.selected = toggled;
            assert(self@ =~= after_key(old(self)@, byte, escape).0);
            return false;
        }
        if byte == 27 {
            match escape {
                Some((b0, b1)) => {
                    if b0 == 91 && b1 == 65 {
                        if self.cursor > 0 {
                            self.cursor = self.cursor - 1;
                        }
                    } else if b0 == 91 && b1 == 66 && self.cursor < COUNTRY_COUNT - 1 {
                        self.cursor = self.cursor + 1;
                    }
                },
                None => {},
            }
        }
        false
    }

    /// Feeds one byte read from the terminal (see `after_byte`).
    pub fn feed(&mut self, byte: u8) -> (r: KeyFeed)
        ensures
            (final(self)@, r) == after_byte(old(self)@, byte),
            selector_wf(final(self)@),
    {
        proof {
            use_type_invariant(&*self);
        }
        if self.escape {
            match self.escape_first {
                None => {
                    self.escape_first = Some(byte);
                    KeyFeed::Pending
                },
                Some(first) => {
                    self.handle_key(27, Some((first, byte)));
                    self.escape = false;
                    self.escape_first = None;
                    KeyFeed::Handled
                },
            }
        } else if byte == 27 {
            self.escape = true;
            self.escape_first = None;
            KeyFeed::Pending
        } else if self.handle_key(byte, None) {
            KeyFeed::Confirmed
        } else {
            KeyFeed::Handled
        }
    }

    /// The input ended: an unfinished escape sequence is dropped. True when
    /// one was, and the menu is to be redrawn as after any other key.
    pub fn end_of_input(&mut self) -> (redraw: bool)
        ensures
            redraw == old(self)@.pending is Some,
            final(self)@ == (SelectorView { pending: None, ..old(self)@ }),
    {
        proof {
            use_type_invariant(&*self);
        }
        let redraw = self.escape;
        self.escape = false;
        self.escape_first = None;
        redraw
    }

    /// The text that draws the menu (see `menu_text`); later drawings
    /// overwrite the earlier one.
    pub fn render(&mut self) -> (r: String)
        ensures
            r@ == menu_text(old(self)@),
            final(self)@ == (SelectorView { first_render: false, ..old(self)@ }),
            selector_wf(final(self)@),
    {
        proof {
            use_type_invariant(&*self);
        }
        let mut r = String::new();
        if !self.first_render {
            r.append("\x1b[");
            push_decimal(&mut r, COUNTRY_COUNT as u64);
            r.append("A");
        }
        let ghost head = r@;
        let mut i: usize = 0;
        while i < COUNTRY_COUNT
            invariant
                selector_wf(self@),
                i <= 6,
                r@ == head + rows_text(self@, i as int),
            decreases 6 - i,
        {
            let (c, n) = AVAILABLE_COUNTRIES[i];
            let ghost before = r@;
            if i == self.cursor {
                r.append("\r\x1b[K\x1b[36;1m > ");
            } else {
                r.append("\r\x1b[K   ");
            }
            if self.selected[i] {
                r.append("[x]");
            } else {
                r.append("[ ]");
            }
            r.append(" ");
            r.append(c);
            r.append(" - ");
            r.append(n);
            if i == self.cursor {
                r.append("\x1b[0m\n");
            } else {
                r.append("\n");
            }
            assert(r@ =~= before + row_text(self@, i as int));
            i = i + 1;
        }
        assert(r@ =~= menu_text(old(self)@));
        self.first_render = false;
        assert(self@ =~= SelectorView { first_render: false, ..old(self)@ });
        r
    }

    /// The codes of the ticked countries, in menu order.
    pub fn chosen(&self) -> (r: Vec<String>)
        ensures
            string_views(r@) == ticked_codes(self@.selected, 6),
            selector_wf(self@),
    {
        proof {
            use_type_invariant(self);
        }
        let mut r: Vec<String> = Vec::new();
        let mut i: usize = 0;
        while i < COUNTRY_COUNT
            invariant
                selector_wf(self@),
                i <= 6,
                string_views(r@) == ticked_codes(self@.selected, i as int),
            decreases 6 - i,
        {
            let ghost before = r@;
            if self.selected[i] {
                let (c, _) = AVAILABLE_COUNTRIES[i];
                r.push(String::from_str(c));
                assert(string_views(r@) =~= string_views(before) + seq![code(i as int)]);
            } else {
                assert(string_views(r@) =~= string_views(before) + Seq::<Seq<char>>::empty());
            }
            i = i + 1;
        }
        r
    }
}

/// Every key keeps the menu in a state that can occur.
pub proof fn law_keys_keep_menu_wf(v: SelectorView, byte: u8, escape: Option<(u8, u8)>)
    requires
        selector_wf(v),
    ensures
        selector_wf(after_key(v, byte, escape).0),
{
}

/// Only enter (line feed or carriage return) confirms, and it changes
/// nothing.
pub proof fn law_only_enter_confirms(v: SelectorView, byte: u8, escape: Option<(u8, u8)>)
    ensures
        after_key(v, byte, escape).1 <==> (byte == 10 || byte == 13),
        after_key(v, byte, escape).1 ==> after_key(v, byte, escape).0 == v,
{
}

/// Space toggles the highlighted country only; pressing it twice restores
/// the menu.
pub proof fn law_space_twice_restores(v: SelectorView)
    requires
        selector_wf(v),
    ensures
        forall|i: int|
            0 <= i < 6 && i != v.cursor ==> after_key(v, 32, None).0.selected[i] == v.selected[i],
        after_key(v, 32, None).0.selected[v.cursor] == !v.selected[v.cursor],
        after_key(after_key(v, 32, None).0, 32, None).0 == v,
{
    assert(after_key(after_key(v, 32, None).0, 32, None).0.selected =~= v.selected);
}

/// Moving down and then up returns the cursor where it was, except from
/// the last row, where down does nothing.
pub proof fn law_down_then_up(v: SelectorView)
    requires
        selector_wf(v),
        v.cursor < 5,
    ensures
        after_key(after_key(v, 27, Some((91, 66))).0, 27, Some((91, 65))).0 == v,
{
}

/// Confirming the untouched menu blocks every country of the list, in list
/// order.
pub proof fn law_default_choice_is_all(selected: Seq<bool>)
    requires
        selected == Seq::new(6, |i: int| true),
    ensures
        ticked_codes(selected, 6) == seq![code(0), code(1), code(2), code(3), code(4), code(5)],
{
    reveal_with_fuel(ticked_codes, 7);
    assert(ticked_codes(selected, 6) =~= seq![code(0), code(1), code(2), code(3), code(4), code(5)]);
}

/// Enter ends the input: reading a line of ordinary keys and then a line
/// feed, whatever follows it, or a carriage return, gives the same menu as
/// reading those keys up to the end of the input, and nothing after the
/// enter is read.
pub proof fn law_enter_ends_input(v: SelectorView, p: Seq<u8>, rest: Seq<u8>)
    requires
        selector_wf(v),
        v.pending is None,
        forall|i: int| 0 <= i < p.len() ==> #[trigger] p[i] != 27 && p[i] != 10 && p[i] != 13,
    ensures
        feed_all(v, p).1 == p.len(),
        feed_all(v, p).0.pending is None,
        feed_all(v, p + seq![10u8] + rest) == (feed_all(v, p).0, p.len() + 1),
        feed_all(v, p + seq![13u8]) == (feed_all(v, p).0, p.len() + 1),
    decreases p.len(),
{
    let lf = p + seq![10u8] + rest;
    let cr = p + seq![13u8];
    if p.len() == 0 {
        assert(lf[0] == 10u8);
        assert(cr[0] == 13u8);
    } else {
        let w = after_byte(v, p[0]).0;
        assert(lf[0] == p[0]);
        assert(cr[0] == p[0]);
        assert(lf.drop_first() =~= p.drop_first() + seq![10u8] + rest);
        assert(cr.drop_first() =~= p.drop_first() + seq![13u8]);
        assert forall|i: int| 0 <= i < p.drop_first().len() implies #[trigger] p.drop_first()[i]
            != 27 && p.drop_first()[i] != 10 && p.drop_first()[i] != 13 by {
            assert(p.drop_first()[i] == p[i + 1]);
        }
        law_enter_ends_input(w, p.drop_first(), rest);
    }
}

} // verus!
