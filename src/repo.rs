use vstd::prelude::*;

verus! {

/// One repository as the hosting platform reports it.
pub struct Repo {
    pub stargazers_count: u32,
    pub name: String,
    pub language: Option<String>,
}

/// The text shown in place of a language when the platform reports none.
pub const NO_LANGUAGE: &'static str = "not specified";

/// The character of a single decimal digit.
pub open spec fn digit_char(d: nat) -> char {
    if d == 0 { '0' }
    else if d == 1 { '1' }
    else if d == 2 { '2' }
    else if d == 3 { '3' }
    else if d == 4 { '4' }
    else if d == 5 { '5' }
    else if d == 6 { '6' }
    else if d == 7 { '7' }
    else if d == 8 { '8' }
    else { '9' }
}

/// The decimal notation of `n`, most significant digit first, without leading zeros.
pub open spec fn decimal(n: nat) -> Seq<char>
    decreases n,
{
    if n < 10 {
        seq![digit_char(n)]
    } else {
        decimal(n / 10).push(digit_char(n % 10))
    }
}

/// What stands in the language column of a rendered line.
pub open spec fn language_text(language: Option<String>) -> Seq<char> {
    match language {
        Some(l) => l@,
        None => NO_LANGUAGE@,
    }
}

/// The line that renders one repository:
/// `Name: {name}, language: {language or placeholder}, {stars}`.
pub open spec fn line_of(r: Repo) -> Seq<char> {
    "Name: "@ + r.name@ + ", language: "@ + language_text(r.language) + ", "@
        + decimal(r.stargazers_count as nat)
}

fn digit_str(d: u32) -> (s: &'static str)
    requires
        d < 10,
    ensures
        s@ == seq![digit_char(d as nat)],
{
    proof {
        reveal_strlit("0");
        reveal_strlit("1");
        reveal_strlit("2");
        reveal_strlit("3");
        reveal_strlit("4");
        reveal_strlit("5");
        reveal_strlit("6");
        reveal_strlit("7");
        reveal_strlit("8");
        reveal_strlit("9");
    }
    if d == 0 { "0" }
    else if d == 1 { "1" }
    else if d == 2 { "2" }
    else if d == 3 { "3" }
    else if d == 4 { "4" }
    else if d == 5 { "5" }
    else if d == 6 { "6" }
    else if d == 7 { "7" }
    else if d == 8 { "8" }
    else { "9" }
}

/// Writes `n` in decimal notation.
pub fn decimal_string(n: u32) -> (s: String)
    ensures
        s@ == decimal(n as nat),
    decreases n,
{
    if n < 10 {
        String::from_str(digit_str(n))
    } else {
        let mut s = decimal_string(n / 10);
        s.append(digit_str(n % 10));
        s
    }
}

impl Repo {
    pub fn new(stargazers_count: u32, name: String, language: Option<String>) -> (r: Repo)
        ensures
            r.stargazers_count == stargazers_count,
            r.name == name,
            r.language == language,
    {
        Repo { stargazers_count, name, language }
    }

    /// Renders the repository as one line of the summary.
    pub fn to_string(&self) -> (s: String)
        ensures
            s@ == line_of(*self),
    {
        let mut s = String::from_str("Name: ");
        s.append(self.name.as_str());
        s.append(", language: ");
        match &self.language {
            Some(l) => s.append(l.as_str()),
            None => s.append(NO_LANGUAGE),
        }
        s.append(", ");
        let stars = decimal_string(self.stargazers_count);
        s.append(stars.as_str());
        s
    }
}

/// A repository without a language renders the placeholder in the language column.
pub proof fn lemma_missing_language_placeholder(r: Repo)
    requires
        r.language is None,
    ensures
        line_of(r) == "Name: "@ + r.name@ + ", language: "@ + "not specified"@ + ", "@ + decimal(
            r.stargazers_count as nat,
        ),
{
}

} // verus!
