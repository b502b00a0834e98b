//! Color schemes: the gradient of colors that bands are drawn in.

use crate::canvas::Color;
use vstd::prelude::*;
use vstd::string::StringExecFns;

verus! {

/// What `str::to_lowercase` makes of a string.
pub uninterp spec fn lower_of(s: Seq<char>) -> Seq<char>;

/// Relies on `str::to_lowercase`: the result depends on the characters alone.
#[verifier::external_body]
pub(crate) fn lowercase(s: &str) -> (r: String)
    ensures
        r@ == lower_of(s@),
{
    s.to_lowercase()
}

/// The color a lowercase color name stands for, if any.
pub open spec fn color_named(name: Seq<char>) -> Option<Color> {
    if name == "red"@ {
        Some(Color::Red)
    } else if name == "yellow"@ {
        Some(Color::Yellow)
    } else if name == "green"@ {
        Some(Color::Green)
    } else if name == "cyan"@ {
        Some(Color::Cyan)
    } else if name == "blue"@ {
        Some(Color::Blue)
    } else if name == "magenta"@ {
        Some(Color::Magenta)
    } else if name == "white"@ {
        Some(Color::White)
    } else if name == "black"@ {
        Some(Color::Black)
    } else if name == "dark_red"@ || name == "darkred"@ {
        Some(Color::DarkRed)
    } else if name == "dark_yellow"@ || name == "darkyellow"@ {
        Some(Color::DarkYellow)
    } else if name == "dark_green"@ || name == "darkgreen"@ {
        Some(Color::DarkGreen)
    } else if name == "dark_cyan"@ || name == "darkcyan"@ {
        Some(Color::DarkCyan)
    } else if name == "dark_blue"@ || name == "darkblue"@ {
        Some(Color::DarkBlue)
    } else if name == "dark_magenta"@ || name == "darkmagenta"@ {
        Some(Color::DarkMagenta)
    } else if name == "grey"@ || name == "gray"@ {
        Some(Color::Grey)
    } else {
        None
    }
}

/// The color `name` stands for, in any letter case.
pub open spec fn color_of_name(name: Seq<char>) -> Option<Color> {
    color_named(lower_of(name))
}

/// The message for a name that stands for no color.
pub open spec fn unknown_color_message(name: Seq<char>) -> Seq<char> {
    "Unknown color name: "@ + name
}

/// Whether `c` has the Unicode `White_Space` property.
pub open spec fn unicode_white_space(c: char) -> bool {
    let u = c as u32;
    (0x9 <= u <= 0xd) || u == 0x20 || u == 0x85 || u == 0xa0 || u == 0x1680 || (0x2000 <= u
        <= 0x200a) || u == 0x2028 || u == 0x2029 || u == 0x202f || u == 0x205f || u == 0x3000
}

/// Relies on `char::is_whitespace`: true exactly for the `White_Space` characters.
#[verifier::external_body]
fn is_whitespace(c: char) -> (r: bool)
    ensures
        r == unicode_white_space(c),
{
    c.is_whitespace()
}

/// Relies on `str::chars`: the characters of `s`, in order.
#[verifier::external_body]
fn chars_of(s: &str) -> (r: Vec<char>)
    ensures
        r@ == s@,
{
    s.chars().collect()
}

/// Relies on collecting characters into a `String`: exactly those characters.
#[verifier::external_body]
fn string_of(v: &[char]) -> (r: String)
    ensures
        r@ == v@,
{
    v.iter().collect()
}

/// The pieces of `s` between commas, as `str::split(',')` gives them: one more
/// piece than there are commas, empty ones included.
pub open spec fn split_commas(s: Seq<char>) -> Seq<Seq<char>>
    decreases s.len(),
{
    if s.len() == 0 {
        seq![Seq::<char>::empty()]
    } else if s.last() == ',' {
        split_commas(s.drop_last()).push(Seq::<char>::empty())
    } else {
        let p = split_commas(s.drop_last());
        p.update(p.len() - 1, p.last().push(s.last()))
    }
}

/// `s` without its leading white space.
pub open spec fn trim_start(s: Seq<char>) -> Seq<char>
    decreases s.len(),
{
    if s.len() > 0 && unicode_white_space(s[0]) {
        trim_start(s.drop_first())
    } else {
        s
    }
}

/// `s` without its trailing white space.
pub open spec fn trim_end(s: Seq<char>) -> Seq<char>
    decreases s.len(),
{
    if s.len() > 0 && unicode_white_space(s.last()) {
        trim_end(s.drop_last())
    } else {
        s
    }
}

/// `s` without leading and trailing white space.
pub open spec fn trimmed(s: Seq<char>) -> Seq<char> {
    trim_end(trim_start(s))
}

/// The color names written in a comma-separated list: each piece trimmed and
/// lowercased.
pub open spec fn color_tokens(list: Seq<char>) -> Seq<Seq<char>> {
    split_commas(list).map_values(|p: Seq<char>| lower_of(trimmed(p)))
}

/// The names a color list may hold.
pub open spec fn valid_color_name(name: Seq<char>) -> bool {
    name == "black"@ || name == "red"@ || name == "green"@ || name == "yellow"@ || name == "blue"@
        || name == "magenta"@ || name == "cyan"@ || name == "white"@ || name == "dark_grey"@ || name
        == "light_red"@ || name == "light_green"@ || name == "light_yellow"@ || name
        == "light_blue"@ || name == "light_magenta"@ || name == "light_cyan"@ || name == "grey"@
}

/// The text after the offending name in the message for an invalid color list.
pub open spec fn valid_colors_hint() -> Seq<char> {
    "'. Valid colors are: black, red, green, yellow, blue, magenta, cyan, white, dark_grey, light_red, light_green, light_yellow, light_blue, light_magenta, light_cyan, grey"@
}

/// The message for a color list holding `name`, which is not a valid name.
pub open spec fn invalid_color_message(name: Seq<char>) -> Seq<char> {
    "Invalid color '"@ + name + valid_colors_hint()
}

/// The gradient used when none is given: red, yellow, green, cyan, blue.
pub open spec fn default_colors() -> Seq<Color> {
    seq![Color::Red, Color::Yellow, Color::Green, Color::Cyan, Color::Blue]
}

/// Whether `a` equals the literal `b`.
fn is_word(a: &String, b: &str) -> (r: bool)
    ensures
        r == (a@ == b@),
{
    *a == String::from_str(b)
}

/// The color a lowercase color name stands for: one of the eight basic colors,
/// a dark variant written `dark_<color>` or `dark<color>`, or `grey` / `gray`.
pub fn color_for_lowercase(name: &String) -> (r: Option<Color>)
    ensures
        r == color_named(name@),
{
    if is_word(name, "red") {
        Some(Color::Red)
    } else if is_word(name, "yellow") {
        Some(Color::Yellow)
    } else if is_word(name, "green") {
        Some(Color::Green)
    } else if is_word(name, "cyan") {
        Some(Color::Cyan)
    } else if is_word(name, "blue") {
        Some(Color::Blue)
    } else if is_word(name, "magenta") {
        Some(Color::Magenta)
    } else if is_word(name, "white") {
        Some(Color::White)
    } else if is_word(name, "black") {
        Some(Color::Black)
    } else if is_word(name, "dark_red") || is_word(name, "darkred") {
        Some(Color::DarkRed)
    } else if is_word(name, "dark_yellow") || is_word(name, "darkyellow") {
        Some(Color::DarkYellow)
    } else if is_word(name, "dark_green") || is_word(name, "darkgreen") {
        Some(Color::DarkGreen)
    } else if is_word(name, "dark_cyan") || is_word(name, "darkcyan") {
        Some(Color::DarkCyan)
    } else if is_word(name, "dark_blue") || is_word(name, "darkblue") {
        Some(Color::DarkBlue)
    } else if is_word(name, "dark_magenta") || is_word(name, "darkmagenta") {
        Some(Color::DarkMagenta)
    } else if is_word(name, "grey") || is_word(name, "gray") {
        Some(Color::Grey)
    } else {
        None
    }
}

/// The pieces of `chars` between commas.
fn split_at_commas(chars: &Vec<char>) -> (r: Vec<Vec<char>>)
    ensures
        r@.map_values(|v: Vec<char>| v@) == split_commas(chars@),
{
    let mut done: Vec<Vec<char>> = Vec::new();
    let mut current: Vec<char> = Vec::new();
    let mut i: usize = 0;
    proof {
        assert(chars@.take(0) =~= Seq::<char>::empty());
        assert(done@.map_values(|v: Vec<char>| v@).push(current@) =~= split_commas(chars@.take(0)));
    }
    while i < chars.len()
        invariant
            i <= chars@.len(),
            done@.map_values(|v: Vec<char>| v@).push(current@) == split_commas(chars@.take(i as int)),
        decreases chars@.len() - i,
    {
        let c = chars[i];
        let ghost before = chars@.take(i as int);
        proof {
            assert(chars@.take(i + 1).drop_last() =~= before);
            assert(chars@.take(i + 1).last() == c);
        }
        if c == ',' {
            let finished = current;
            done.push(finished);
            current = Vec::new();
            proof {
                assert(done@.map_values(|v: Vec<char>| v@).push(current@) =~= split_commas(before).push(
                    Seq::<char>::empty(),
                ));
            }
        } else {
            current.push(c);
            proof {
                let p = split_commas(before);
                assert(done@.map_values(|v: Vec<char>| v@).push(current@) =~= p.update(
                    p.len() - 1,
                    p.last().push(c),
                ));
            }
        }
        i = i + 1;
    }
    proof {
        assert(chars@.take(chars@.len() as int) =~= chars@);
    }
    done.push(current);
    proof {
        assert(done@.map_values(|v: Vec<char>| v@) =~= split_commas(chars@));
    }
    done
}

/// `trim_start` of a sequence whose first character is white space skips it.
proof fn lemma_trim_start_step(s: Seq<char>, i: int)
    requires
        0 <= i < s.len(),
        unicode_white_space(s[i]),
    ensures
        trim_start(s.skip(i)) == trim_start(s.skip(i + 1)),
{
    assert(s.skip(i).drop_first() =~= s.skip(i + 1));
}

/// `trim_end` of a sequence whose last character is white space drops it.
proof fn lemma_trim_end_step(s: Seq<char>, i: int, j: int)
    requires
        0 <= i < j <= s.len(),
        unicode_white_space(s[j - 1]),
    ensures
        trim_end(s.subrange(i, j)) == trim_end(s.subrange(i, j - 1)),
{
    assert(s.subrange(i, j).drop_last() =~= s.subrange(i, j - 1));
}

/// `chars` without leading and trailing white space.
fn trim_chars(chars: &Vec<char>) -> (r: Vec<char>)
    ensures
        r@ == trimmed(chars@),
{
    let n = chars.len();
    let mut i: usize = 0;
    proof {
        assert(chars@.skip(0) =~= chars@);
    }
    while i < n && is_whitespace(chars[i])
        invariant
            n == chars@.len(),
            i <= n,
            trim_start(chars@) == trim_start(chars@.skip(i as int)),
        decreases n - i,
    {
        proof {
            lemma_trim_start_step(chars@, i as int);
        }
        i = i + 1;
    }
    assert(trim_start(chars@.skip(i as int)) == chars@.skip(i as int));
    assert(chars@.skip(i as int) =~= chars@.subrange(i as int, n as int));
    let mut j: usize = n;
    while j > i && is_whitespace(chars[j - 1])
        invariant
            n == chars@.len(),
            i <= j <= n,
            trim_start(chars@) == chars@.subrange(i as int, n as int),
            trimmed(chars@) == trim_end(chars@.subrange(i as int, j as int)),
        decreases j - i,
    {
        proof {
            lemma_trim_end_step(chars@, i as int, j as int);
        }
        j = j - 1;
    }
    assert(trim_end(chars@.subrange(i as int, j as int)) == chars@.subrange(i as int, j as int));
    let mut r: Vec<char> = Vec::new();
    let mut k: usize = i;
    while k < j
        invariant
            i <= k <= j <= n,
            n == chars@.len(),
            r@ == chars@.subrange(i as int, k as int),
        decreases j - k,
    {
        r.push(chars[k]);
        proof {
            assert(r@ =~= chars@.subrange(i as int, k + 1));
        }
        k = k + 1;
    }
    r
}

/// The color names written in the comma-separated `list`, each trimmed and lowercased.
pub fn color_list(list: &str) -> (r: Vec<String>)
    ensures
        r@.map_values(|s: String| s@) == color_tokens(list@),
{
    let chars = chars_of(list);
    let pieces = split_at_commas(&chars);
    let ghost views = pieces@.map_values(|v: Vec<char>| v@);
    let mut names: Vec<String> = Vec::new();
    let mut i: usize = 0;
    assert(color_tokens(list@).len() == views.len());
    while i < pieces.len()
        invariant
            i <= pieces@.len(),
            views == pieces@.map_values(|v: Vec<char>| v@),
            views == split_commas(chars@),
            chars@ == list@,
            color_tokens(list@).len() == pieces@.len(),
            names@.len() == i,
            names@.map_values(|s: String| s@) =~= color_tokens(list@).take(i as int),
        decreases pieces@.len() - i,
    {
        let piece = trim_chars(&pieces[i]);
        let word = string_of(piece.as_slice());
        let name = lowercase(word.as_str());
        assert(views[i as int] == pieces@[i as int]@);
        let ghost prior = names@;
        let ghost added = name@;
        assert(added == lower_of(trimmed(views[i as int])));
        names.push(name);
        proof {
            assert(names@.len() == i + 1);
            assert(names@[i as int]@ == added);
            assert(color_tokens(list@)[i as int] == added);
            assert(forall|k: int| 0 <= k < i ==> names@[k] == prior[k]);
            assert(names@.map_values(|s: String| s@) =~= color_tokens(list@).take(i + 1));
        }
        i = i + 1;
    }
    proof {
        assert(color_tokens(list@).take(pieces@.len() as int) =~= color_tokens(list@));
    }
    names
}

/// Whether `name` is one of the names a color list may hold.
pub fn is_valid_color_name(name: &String) -> (r: bool)
    ensures
        r == valid_color_name(name@),
{
    is_word(name, "black") || is_word(name, "red") || is_word(name, "green") || is_word(name, "yellow")
        || is_word(name, "blue") || is_word(name, "magenta") || is_word(name, "cyan") || is_word(
        name,
        "white",
    ) || is_word(name, "dark_grey") || is_word(name, "light_red") || is_word(name, "light_green")
        || is_word(name, "light_yellow") || is_word(name, "light_blue") || is_word(
        name,
        "light_magenta",
    ) || is_word(name, "light_cyan") || is_word(name, "grey")
}

/// Checks a comma-separated color list: fails with a message naming the first
/// entry, trimmed and lowercased, that is not a valid color name.
pub fn check_color_list(list: &str) -> (r: Result<(), String>)
    ensures
        r is Ok <==> forall|i: int|
            0 <= i < color_tokens(list@).len() ==> valid_color_name(#[trigger] color_tokens(list@)[i]),
        r is Err ==> exists|j: int|
            0 <= j < color_tokens(list@).len() && !valid_color_name(#[trigger] color_tokens(list@)[j])
                && r->Err_0@ == invalid_color_message(color_tokens(list@)[j]) && forall|k: int|
                0 <= k < j ==> valid_color_name(#[trigger] color_tokens(list@)[k]),
{
    let names = color_list(list);
    let ghost tokens = color_tokens(list@);
    let mut i: usize = 0;
    while i < names.len()
        invariant
            i <= names@.len(),
            names@.map_values(|s: String| s@) == tokens,
            tokens == color_tokens(list@),
            forall|k: int| 0 <= k < i ==> valid_color_name(#[trigger] tokens[k]),
        decreases names@.len() - i,
    {
        assert(tokens[i as int] == names@[i as int]@);
        if !is_valid_color_name(&names[i]) {
            let message = String::from_str("Invalid color '").concat(names[i].as_str()).concat(
                "'. Valid colors are: black, red, green, yellow, blue, magenta, cyan, white, dark_grey, light_red, light_green, light_yellow, light_blue, light_magenta, light_cyan, grey",
            );
            proof {
                assert(message@ =~= invalid_color_message(tokens[i as int]));
            }
            return Err(message);
        }
        i = i + 1;
    }
    Ok(())
}

/// The names of the default gradient's colors.
pub fn default_color_names() -> (r: Vec<String>)
    ensures
        r@.map_values(|s: String| s@) == seq!["red"@, "yellow"@, "green"@, "cyan"@, "blue"@],
{
    let r = vec![
        String::from_str("red"),
        String::from_str("yellow"),
        String::from_str("green"),
        String::from_str("cyan"),
        String::from_str("blue"),
    ];
    proof {
        assert(r@.map_values(|s: String| s@) =~= seq!["red"@, "yellow"@, "green"@, "cyan"@, "blue"@]);
    }
    r
}

/// The colors that bands are drawn in, from the lowest band to the highest.
#[derive(Clone, Debug)]
pub struct ColorScheme {
    colors: Vec<Color>,
}

impl View for ColorScheme {
    type V = Seq<Color>;

    closed spec fn view(&self) -> Seq<Color> {
        self.colors@
    }
}

/// The default gradient.
fn default_color_vec() -> (v: Vec<Color>)
    ensures
        v@ == default_colors(),
{
    let v = vec![Color::Red, Color::Yellow, Color::Green, Color::Cyan, Color::Blue];
    proof {
        assert(v@ =~= default_colors());
    }
    v
}

impl Default for ColorScheme {
    /// Red, yellow, green, cyan, blue: warm colors for the bass, cool ones for the treble.
    fn default() -> (r: ColorScheme)
        ensures
            r@ == default_colors(),
    {
        ColorScheme { colors: default_color_vec() }
    }
}

impl ColorScheme {
    /// A scheme of exactly `colors`.
    pub fn new(colors: Vec<Color>) -> (r: ColorScheme)
        ensures
            r@ == colors@,
    {
        ColorScheme { colors }
    }

    /// A scheme of `colors`, or the default gradient when `colors` is empty.
    pub fn gradient(colors: Vec<Color>) -> (r: ColorScheme)
        ensures
            colors@.len() == 0 ==> r@ == default_colors(),
            colors@.len() > 0 ==> r@ == colors@,
    {
        if colors.len() == 0 {
            ColorScheme { colors: default_color_vec() }
        } else {
            ColorScheme { colors }
        }
    }

    /// The colors of the scheme.
    pub fn colors(&self) -> (c: &[Color])
        ensures
            c@ == self@,
    {
        self.colors.as_slice()
    }

    /// The color `name` stands for, in any letter case, or the message
    /// `Unknown color name: <name>`.
    pub fn parse_color_name(name: &str) -> (r: Result<Color, String>)
        ensures
            color_of_name(name@) is Some ==> r == Ok::<Color, String>(color_of_name(name@)->0),
            color_of_name(name@) is None ==> r is Err && r->Err_0@ == unknown_color_message(name@),
    {
        let lowered = lowercase(name);
        match color_for_lowercase(&lowered) {
            Some(c) => Ok(c),
            None => Err(String::from_str("Unknown color name: ").concat(name)),
        }
    }

    /// A scheme of the colors `color_names` stand for, in order; the default
    /// gradient when there are none. The first name that stands for no color
    /// makes it fail with that name's message.
    pub fn from_names(color_names: &[String]) -> (r: Result<ColorScheme, String>)
        ensures
            color_names@.len() == 0 ==> r is Ok && r->Ok_0@ == default_colors(),
            color_names@.len() > 0 && (forall|i: int|
                0 <= i < color_names@.len() ==> (#[trigger] color_of_name(color_names@[i]@)) is Some)
                ==> r is Ok && r->Ok_0@ == Seq::new(
                color_names@.len(),
                |i: int| color_of_name(color_names@[i]@)->0,
            ),
            r is Err ==> exists|j: int|
                0 <= j < color_names@.len() && (#[trigger] color_of_name(color_names@[j]@)) is None
                    && r->Err_0@ == unknown_color_message(color_names@[j]@) && forall|k: int|
                    0 <= k < j ==> (#[trigger] color_of_name(color_names@[k]@)) is Some,
            (exists|j: int| 0 <= j < color_names@.len() && (#[trigger] color_of_name(color_names@[j]@)) is None)
                ==> r is Err,
    {
        if color_names.len() == 0 {
            return Ok(ColorScheme { colors: default_color_vec() });
        }
        let mut colors: Vec<Color> = Vec::new();
        let mut i: usize = 0;
        while i < color_names.len()
            invariant
                i <= color_names@.len(),
                colors@ =~= Seq::new(i as nat, |k: int| color_of_name(color_names@[k]@)->0),
                forall|k: int| 0 <= k < i ==> (#[trigger] color_of_name(color_names@[k]@)) is Some,
            decreases color_names@.len() - i,
        {
            match Self::parse_color_name(color_names[i].as_str()) {
                Ok(c) => {
                    colors.push(c);
                },
                Err(message) => {
                    return Err(message);
                },
            }
            i = i + 1;
        }
        Ok(ColorScheme { colors })
    }
}

} // verus!
