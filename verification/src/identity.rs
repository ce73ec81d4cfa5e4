//! The city's identity: the distribution's display name, the monolith's
//! sign, and the counters that a simulation step advances.

use vstd::prelude::*;
use crate::scene::{update_stage, update_stage_spec, UpdateStage};
use crate::paint::{AreaFill, Ink, TextWrite};
use crate::skyline::Area;
use crate::text::{diagnostics_overlay, overlay_texts};
use rand::Rng;

verus! {

/// What `str::to_lowercase` returns for a string: its full Unicode
/// lower-case mapping.
pub uninterp spec fn lowercase(s: Seq<char>) -> Seq<char>;

/// What `str::to_uppercase` returns for a string: its full Unicode
/// upper-case mapping.
pub uninterp spec fn uppercase(s: Seq<char>) -> Seq<char>;

/// Calls `str::to_lowercase`; the result is the name `lowercase` applied
/// to the argument, nothing more is claimed of the Unicode mapping.
#[verifier::external_body]
fn to_lowercase(s: &str) -> (r: String)
    ensures
        r@ == lowercase(s@),
{
    s.to_lowercase()
}

/// Calls `str::to_uppercase`; the result is the name `uppercase` applied
/// to the argument, nothing more is claimed of the Unicode mapping.
#[verifier::external_body]
fn to_uppercase(s: &str) -> (r: String)
    ensures
        r@ == uppercase(s@),
{
    s.to_uppercase()
}

/// Calls `rand::thread_rng().gen::<u64>()`: a fresh random number, of which
/// nothing is claimed.
#[verifier::external_body]
fn random_u64() -> u64 {
    rand::thread_rng().gen()
}

/// Two texts hold the same characters.
fn same_text(a: &str, b: &str) -> (same: bool)
    ensures
        same == (a@ == b@),
{
    a.to_owned() == b.to_owned()
}

/// `needle` occurs in `hay` as a run of consecutive characters.
pub open spec fn contains_text(hay: Seq<char>, needle: Seq<char>) -> bool {
    exists|i: int|
        0 <= i && i + needle.len() <= hay.len() && #[trigger] hay.subrange(i, i + needle.len())
            == needle
}

/// Whether `needle` occurs in `hay`.
pub fn text_contains(hay: &str, needle: &str) -> (found: bool)
    ensures
        found == contains_text(hay@, needle@),
{
    let n = hay.unicode_len();
    let m = needle.unicode_len();
    if m > n {
        return false;
    }
    let mut i: usize = 0;
    while i <= n - m
        invariant
            n == hay@.len(),
            m == needle@.len(),
            m <= n,
            i <= n - m + 1,
            forall|j: int| 0 <= j < i ==> #[trigger] hay@.subrange(j, j + m) != needle@,
        decreases n - m + 1 - i,
    {
        let mut k: usize = 0;
        let mut ok = true;
        while k < m
            invariant_except_break
                ok,
            invariant
                n == hay@.len(),
                m == needle@.len(),
                i + m <= n,
                k <= m,
                forall|t: int| 0 <= t < k ==> hay@[i + t] == needle@[t],
            ensures
                ok ==> k == m,
                ok ==> forall|t: int| 0 <= t < m ==> hay@[i + t] == needle@[t],
                !ok ==> k < m && hay@[i + k] != needle@[k as int],
            decreases m - k,
        {
            if hay.get_char(i + k) != needle.get_char(k) {
                ok = false;
                break;
            }
            k = k + 1;
        }
        if ok {
            assert(hay@.subrange(i as int, i + m) =~= needle@);
            return true;
        }
        assert(hay@.subrange(i as int, i + m)[k as int] != needle@[k as int]);
        i = i + 1;
    }
    false
}

/// The name shown for a distribution whose name lower-cases to `lower`
/// and upper-cases to `upper`: a few distributions get their proper
/// spelling, every other name is shown in upper case.
pub open spec fn display_name_spec(lower: Seq<char>, upper: Seq<char>) -> Seq<char> {
    if lower == "popos"@ || lower == "pop_os"@ {
        "POP! OS"@
    } else if lower == "endeavouros"@ {
        "ENDEAVOUR OS"@
    } else if lower == "artix"@ {
        "ARTIX LINUX"@
    } else if lower == "garuda"@ {
        "GARUDA LINUX"@
    } else if lower == "zorin"@ {
        "ZORIN OS"@
    } else if lower == "rhel"@ || lower == "redhat"@ {
        "RED HAT"@
    } else {
        upper
    }
}

/// Only eight names get a proper spelling: every distribution whose
/// lower-case name is none of popos, pop_os, endeavouros, artix, garuda,
/// zorin, rhel or redhat is shown in upper case, and those eight are shown
/// as POP! OS, ENDEAVOUR OS, ARTIX LINUX, GARUDA LINUX, ZORIN OS and RED HAT.
pub proof fn lemma_display_names(lower: Seq<char>, upper: Seq<char>)
    ensures
        lower != "popos"@ && lower != "pop_os"@ && lower != "endeavouros"@ && lower != "artix"@
            && lower != "garuda"@ && lower != "zorin"@ && lower != "rhel"@ && lower != "redhat"@
            ==> display_name_spec(lower, upper) == upper,
        lower == "popos"@ || lower == "pop_os"@ ==> display_name_spec(lower, upper) == "POP! OS"@,
        lower == "endeavouros"@ ==> display_name_spec(lower, upper) == "ENDEAVOUR OS"@,
        lower == "artix"@ ==> display_name_spec(lower, upper) == "ARTIX LINUX"@,
        lower == "garuda"@ ==> display_name_spec(lower, upper) == "GARUDA LINUX"@,
        lower == "zorin"@ ==> display_name_spec(lower, upper) == "ZORIN OS"@,
        lower == "rhel"@ || lower == "redhat"@ ==> display_name_spec(lower, upper) == "RED HAT"@,
{
    reveal_strlit("popos");
    reveal_strlit("pop_os");
    reveal_strlit("endeavouros");
    reveal_strlit("artix");
    reveal_strlit("garuda");
    reveal_strlit("zorin");
    reveal_strlit("rhel");
    reveal_strlit("redhat");
    if lower == "endeavouros"@ {
        assert(lower.len() == 11);
    }
    if lower == "artix"@ {
        assert(lower[0] == 'a');
    }
    if lower == "garuda"@ {
        assert(lower.len() == 6 && lower[0] == 'g');
    }
    if lower == "zorin"@ {
        assert(lower.len() == 5 && lower[0] == 'z');
    }
    if lower == "rhel"@ {
        assert(lower.len() == 4);
    }
    if lower == "redhat"@ {
        assert(lower.len() == 6 && lower[0] == 'r');
    }
}

/// The display name, given the distribution's name in lower and in upper case.
pub fn display_name_from(lower: &str, upper: &str) -> (name: String)
    ensures
        name@ == display_name_spec(lower@, upper@),
{
    if same_text(lower, "popos") || same_text(lower, "pop_os") {
        String::from_str("POP! OS")
    } else if same_text(lower, "endeavouros") {
        String::from_str("ENDEAVOUR OS")
    } else if same_text(lower, "artix") {
        String::from_str("ARTIX LINUX")
    } else if same_text(lower, "garuda") {
        String::from_str("GARUDA LINUX")
    } else if same_text(lower, "zorin") {
        String::from_str("ZORIN OS")
    } else if same_text(lower, "rhel") || same_text(lower, "redhat") {
        String::from_str("RED HAT")
    } else {
        String::from_str(upper)
    }
}

/// The display name of a distribution.
pub fn display_name(distro: &str) -> (name: String)
    ensures
        name@ == display_name_spec(lowercase(distro@), uppercase(distro@)),
{
    let lower = to_lowercase(distro);
    let upper = to_uppercase(distro);
    display_name_from(lower.as_str(), upper.as_str())
}

/// The monolith's sign: the custom text where one is set, else the display
/// name followed by ` CORP`.
pub open spec fn sign_text_spec(custom: Seq<char>, display: Seq<char>) -> Seq<char> {
    if custom.len() > 0 {
        custom
    } else {
        display + " CORP"@
    }
}

/// The monolith's sign text.
pub fn monolith_sign_text(custom: &str, display: &str) -> (text: String)
    ensures
        text@ == sign_text_spec(custom@, display@),
{
    if !custom.is_empty() {
        String::from_str(custom)
    } else {
        String::from_str(display).concat(" CORP")
    }
}

/// The part of the city that is neither drawn with floating point nor
/// borrowed from the theme: its counters, its name and the texts it shows.
pub struct CityState {
    pub frame_count: u64,
    pub window_seed: u64,
    pub chase_cooldown: u32,
    pub distro: String,
    pub debug_mode: bool,
    pub top_processes: Vec<String>,
    pub solid_background_color: String,
    pub custom_monolith_text: String,
    pub custom_monolith_color: String,
    pub monolith_sign_text: String,
}

/// `(n + 1) mod 2^64`.
pub open spec fn next_frame(n: int) -> int {
    (n + 1) % 0x1_0000_0000_0000_0000
}

impl CityState {
    /// A city for `distro` at frame 0, with no known processes, debugging
    /// off, and a random window seed.
    pub fn new(
        distro: String,
        solid_background_color: String,
        custom_monolith_text: String,
        custom_monolith_color: String,
    ) -> (city: Self)
        ensures
            city.frame_count == 0,
            city.chase_cooldown == 0,
            !city.debug_mode,
            city.top_processes@.len() == 0,
            city.distro == distro,
            city.solid_background_color == solid_background_color,
            city.custom_monolith_text == custom_monolith_text,
            city.custom_monolith_color == custom_monolith_color,
            city.monolith_sign_text@ == sign_text_spec(
                custom_monolith_text@,
                display_name_spec(lowercase(distro@), uppercase(distro@)),
            ),
    {
        let name = display_name(distro.as_str());
        let sign = monolith_sign_text(custom_monolith_text.as_str(), name.as_str());
        CityState {
            frame_count: 0,
            window_seed: random_u64(),
            chase_cooldown: 0,
            distro,
            debug_mode: false,
            top_processes: Vec::new(),
            solid_background_color,
            custom_monolith_text,
            custom_monolith_color,
            monolith_sign_text: sign,
        }
    }

    /// One step on an area `width` by `height` with the latest process
    /// list: on an empty area nothing changes; else the process list is
    /// replaced and the frame counter advances by one, wrapping.
    pub fn update(&mut self, width: u16, height: u16, processes: Vec<String>) -> (stage: UpdateStage)
        ensures
            stage == update_stage_spec(width as int, height as int),
            stage == UpdateStage::Frozen ==> *final(self) == *old(self),
            stage != UpdateStage::Frozen ==> {
                &&& final(self).frame_count == next_frame(old(self).frame_count as int)
                &&& final(self).top_processes == processes
                &&& final(self).window_seed == old(self).window_seed
                &&& final(self).chase_cooldown == old(self).chase_cooldown
                &&& final(self).distro == old(self).distro
                &&& final(self).debug_mode == old(self).debug_mode
                &&& final(self).solid_background_color == old(self).solid_background_color
                &&& final(self).custom_monolith_text == old(self).custom_monolith_text
                &&& final(self).custom_monolith_color == old(self).custom_monolith_color
                &&& final(self).monolith_sign_text == old(self).monolith_sign_text
            },
    {
        let stage = update_stage(width, height);
        if stage == UpdateStage::Frozen {
            return stage;
        }
        self.top_processes = processes;
        self.frame_count = self.frame_count.wrapping_add(1);
        stage
    }

    /// The area is first filled with the configured solid background
    /// colour: one is set.
    pub fn paints_solid_background(&self) -> (paints: bool)
        ensures
            paints == (self.solid_background_color@.len() > 0),
    {
        !self.solid_background_color.as_str().is_empty()
    }

    /// The solid background of `area`: where a colour is configured, every
    /// cell of the area becomes a space on that colour, keeping its
    /// foreground; else nothing is painted.
    pub fn background_fill(&self, area: Area) -> (fill: Option<AreaFill>)
        ensures
            fill is Some <==> self.solid_background_color@.len() > 0,
            fill matches Some(f) ==> f == (AreaFill {
                x: area.x,
                y: area.y,
                width: area.width,
                height: area.height,
                symbol: ' ',
                bg: Ink::SolidBackground,
            }),
    {
        if self.paints_solid_background() {
            Some(AreaFill { x: area.x, y: area.y, width: area.width, height: area.height, symbol: ' ', bg: Ink::SolidBackground })
        } else {
            None
        }
    }

    /// The monolith's sign takes the configured custom colour (falling back
    /// to the main neon where it does not parse): one is set.
    pub fn uses_custom_sign_color(&self) -> (custom: bool)
        ensures
            custom == (self.custom_monolith_color@.len() > 0),
    {
        !self.custom_monolith_color.as_str().is_empty()
    }

    /// The diagnostics overlay of `area` with the weather's name `weather`
    /// and `vehicles` vehicles about: drawn only while debugging is on.
    pub fn diagnostics(&self, area: Area, weather: &str, vehicles: usize) -> (lines: Vec<TextWrite>)
        requires
            self.debug_mode ==> area.x + 2 <= u16::MAX && area.y + 8 <= u16::MAX && vehicles <= u64::MAX,
        ensures
            !self.debug_mode ==> lines@.len() == 0,
            self.debug_mode ==> lines@.len() == 7 && forall|k: int|
                0 <= k < 7 ==> {
                    &&& #[trigger] lines@[k].col == area.x + 2
                    &&& lines@[k].row == area.y + 2 + k
                    &&& lines@[k].text@ == overlay_texts(
                        self.frame_count as int,
                        self.chase_cooldown as int,
                        self.window_seed as int,
                        weather@,
                        vehicles as int,
                    )[k]
                    &&& lines@[k].fg == (if k == 0 || k == 6 {
                        crate::text::diagnostics_green()
                    } else {
                        crate::paint::Ink::White
                    })
                },
    {
        if self.debug_mode {
            diagnostics_overlay(area, self.frame_count, self.chase_cooldown, self.window_seed, weather, vehicles)
        } else {
            Vec::new()
        }
    }

    /// The distribution is drawn with the four-pane window logo: its
    /// lower-cased name contains `windows`.
    pub fn uses_pane_logo(&self) -> (panes: bool)
        ensures
            panes == contains_text(lowercase(self.distro@), "windows"@),
    {
        let lower = to_lowercase(self.distro.as_str());
        text_contains(lower.as_str(), "windows")
    }
}

} // verus!
