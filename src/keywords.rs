use vstd::prelude::*;

verus! {

/// Whether `word` occurs in `text` as a contiguous run of characters.
pub open spec fn occurs_in(text: Seq<char>, word: Seq<char>) -> bool {
    exists|i: int|
        0 <= i && i + word.len() <= text.len() && #[trigger] text.subrange(i, i + word.len())
            == word
}

/// The application that a transcript asks to open.
#[derive(Clone, Copy, Debug, PartialEq, Eq, Structural)]
pub enum Launcher {
    Weather,
    Calculator,
}

/// Keyword that selects the weather application.
pub open spec fn weather_word() -> Seq<char> {
    seq!['w', 'e', 'a', 't', 'h', 'e', 'r']
}

/// Keyword that selects the calculator.
pub open spec fn calculator_word() -> Seq<char> {
    seq!['c', 'a', 'l', 'c', 'u', 'l', 'a', 't', 'o', 'r']
}

/// The launcher a transcript selects: the weather keyword takes precedence
/// over the calculator keyword; matching is case-sensitive.
pub open spec fn launcher_for(text: Seq<char>) -> Option<Launcher> {
    if occurs_in(text, weather_word()) {
        Some(Launcher::Weather)
    } else if occurs_in(text, calculator_word()) {
        Some(Launcher::Calculator)
    } else {
        None
    }
}

/// The characters of a string, in order.
fn chars_of(s: &str) -> (r: Vec<char>)
    ensures
        r@ == s@,
{
    let mut r: Vec<char> = Vec::new();
    for c in it: s.chars()
        invariant
            r@ == it.seq().subrange(0, it.index() as int),
    {
        r.push(c);
    }
    r
}

/// Whether `word` occurs at position `at` of `text`.
fn occurs_at(text: &Vec<char>, word: &Vec<char>, at: usize) -> (r: bool)
    requires
        at + word@.len() <= text@.len(),
    ensures
        r == (text@.subrange(at as int, at + word@.len()) == word@),
{
    let text_len: usize = text.len();
    let mut j: usize = 0;
    while j < word.len()
        invariant
            at + word@.len() <= text@.len(),
            text_len == text@.len(),
            0 <= j <= word@.len(),
            forall|k: int| 0 <= k < j ==> text@[at + k] == word@[k],
        decreases word@.len() - j,
    {
        if text[at + j] != word[j] {
            assert(text@.subrange(at as int, at + word@.len())[j as int] != word@[j as int]);
            return false;
        }
        j = j + 1;
    }
    assert(text@.subrange(at as int, at + word@.len()) =~= word@);
    true
}

/// Whether `word` occurs in `text` (case-sensitive substring search).
pub fn contains_word(text: &str, word: &str) -> (r: bool)
    ensures
        r == occurs_in(text@, word@),
{
    let t = chars_of(text);
    let w = chars_of(word);
    if w.len() == 0 {
        assert(text@.subrange(0, 0 + word@.len() as int) =~= word@);
        return true;
    }
    if w.len() > t.len() {
        return false;
    }
    let t_len: usize = t.len();
    let last: usize = t_len - w.len();
    let mut i: usize = 0;
    while i <= last
        invariant
            t@ == text@,
            w@ == word@,
            t_len == t@.len(),
            w@.len() > 0,
            last == t@.len() - w@.len(),
            0 <= i <= last + 1,
            forall|k: int| 0 <= k < i ==> #[trigger] t@.subrange(k, k + w@.len()) != w@,
        decreases last + 1 - i,
    {
        if occurs_at(&t, &w, i) {
            return true;
        }
        i = i + 1;
    }
    assert forall|k: int| 0 <= k && k + w@.len() <= t@.len() implies #[trigger] t@.subrange(
        k,
        k + w@.len(),
    ) != w@ by {}
    false
}

/// Picks the application that a transcript asks for: the weather keyword
/// first, then the calculator keyword, else none.
pub fn launch_for(text: &str) -> (r: Option<Launcher>)
    ensures
        r == launcher_for(text@),
{
    proof {
        reveal_strlit("weather");
        reveal_strlit("calculator");
        assert("weather"@ =~= weather_word());
        assert("calculator"@ =~= calculator_word());
    }
    if contains_word(text, "weather") {
        Some(Launcher::Weather)
    } else if contains_word(text, "calculator") {
        Some(Launcher::Calculator)
    } else {
        None
    }
}

impl Launcher {
    /// Filesystem path of the application bundle to open.
    pub fn app_path(&self) -> (r: &'static str)
        ensures
            r@ == app_path_of(*self),
    {
        proof {
            reveal_strlit("/System/Applications/Weather.app");
            reveal_strlit("/System/Applications/Calculator.app");
        }
        match self {
            Launcher::Weather => "/System/Applications/Weather.app",
            Launcher::Calculator => "/System/Applications/Calculator.app",
        }
    }
}

/// Path of the application bundle that a launcher opens.
pub open spec fn app_path_of(l: Launcher) -> Seq<char> {
    match l {
        Launcher::Weather => "/System/Applications/Weather.app"@,
        Launcher::Calculator => "/System/Applications/Calculator.app"@,
    }
}

} // verus!
