use vstd::prelude::*;

verus! {

/// An ASCII capital letter.
pub open spec fn is_upper(c: char) -> bool {
    'A' <= c && c <= 'Z'
}

/// An ASCII small letter.
pub open spec fn is_lower(c: char) -> bool {
    'a' <= c && c <= 'z'
}

/// The ASCII lower-case form of a character; other characters are kept.
pub open spec fn ascii_lower(c: char) -> char {
    if is_upper(c) {
        ((c as u32) + 32) as char
    } else {
        c
    }
}

/// Splits a CamelCase identifier into words: a space is put before every capital
/// letter that follows a small letter ("SaudiArabia" becomes "Saudi Arabia",
/// "USA" and "DDos" stay as they are).
pub open spec fn split_words(s: Seq<char>) -> Seq<char>
    decreases s.len(),
{
    if s.len() == 0 {
        Seq::empty()
    } else {
        let prev = split_words(s.drop_last());
        let c = s.last();
        if s.len() >= 2 && is_upper(c) && is_lower(s[s.len() - 2]) {
            prev + seq![' ', c]
        } else {
            prev.push(c)
        }
    }
}

/// The lower-case form of a whole text.
pub open spec fn lower_text(s: Seq<char>) -> Seq<char> {
    s.map_values(|c: char| ascii_lower(c))
}

/// Calls `str::to_ascii_lowercase`: std documents that ASCII letters 'A' to 'Z'
/// are mapped to 'a' to 'z' and every other character is kept.
#[verifier::external_body]
fn to_ascii_lowercase(s: &str) -> (res: String)
    ensures
        res@ == lower_text(s@),
{
    s.to_ascii_lowercase()
}

fn is_upper_exec(c: char) -> (b: bool)
    ensures
        b == is_upper(c),
{
    'A' <= c && c <= 'Z'
}

fn is_lower_exec(c: char) -> (b: bool)
    ensures
        b == is_lower(c),
{
    'a' <= c && c <= 'z'
}

/// The display name of an identifier: its words separated by spaces.
pub fn display_name(ident: &str) -> (res: String)
    ensures
        res@ == split_words(ident@),
{
    let n = ident.unicode_len();
    let mut res = String::new();
    let mut i: usize = 0;
    while i < n
        invariant
            n == ident@.len(),
            i <= n,
            res@ == split_words(ident@.subrange(0, i as int)),
        decreases n - i,
    {
        let c = ident.get_char(i);
        let ghost pre = ident@.subrange(0, i as int);
        let ghost next = ident@.subrange(0, i + 1);
        assert(next.drop_last() =~= pre);
        assert(next.last() == c);
        assert(i > 0 ==> next[next.len() - 2] == ident@[i - 1]);
        proof {
            reveal_strlit(" ");
        }
        if i > 0 && is_upper_exec(c) && is_lower_exec(ident.get_char(i - 1)) {
            res.append(" ");
        }
        let piece = ident.substring_char(i, i + 1);
        assert(piece@ =~= seq![c]);
        res.append(piece);
        i = i + 1;
    }
    assert(ident@.subrange(0, n as int) =~= ident@);
    res
}

/// The lower-case display name of an identifier.
pub fn display_lowername(ident: &str) -> (res: String)
    ensures
        res@ == lower_text(split_words(ident@)),
{
    let name = display_name(ident);
    to_ascii_lowercase(name.as_str())
}

/// The text with every space replaced by a hyphen.
pub open spec fn dashed(s: Seq<char>) -> Seq<char> {
    s.map_values(|c: char| if c == ' ' { '-' } else { c })
}

/// Replaces every space of the text by a hyphen.
pub fn dash_spaces(text: &str) -> (r: String)
    ensures
        r@ == dashed(text@),
{
    let n = text.unicode_len();
    let mut r = String::new();
    let mut i: usize = 0;
    while i < n
        invariant
            n == text@.len(),
            i <= n,
            r@ == dashed(text@.subrange(0, i as int)),
        decreases n - i,
    {
        let c = text.get_char(i);
        proof {
            reveal_strlit("-");
        }
        if c == ' ' {
            r.append("-");
        } else {
            let piece = text.substring_char(i, i + 1);
            assert(piece@ =~= seq![c]);
            r.append(piece);
        }
        assert(dashed(text@.subrange(0, i + 1)) =~= dashed(text@.subrange(0, i as int)).push(
            if c == ' ' {
                '-'
            } else {
                c
            },
        ));
        i = i + 1;
    }
    assert(text@.subrange(0, n as int) =~= text@);
    r
}

/// The text up to its first space (all of it when it holds no space).
pub open spec fn first_word(s: Seq<char>) -> Seq<char>
    decreases s.len(),
{
    if s.len() == 0 || s[0] == ' ' {
        Seq::empty()
    } else {
        seq![s[0]] + first_word(s.drop_first())
    }
}

proof fn lemma_first_word_prefix(s: Seq<char>, k: int)
    requires
        0 <= k <= s.len(),
        forall|j: int| 0 <= j < k ==> s[j] != ' ',
        k == s.len() || s[k] == ' ',
    ensures
        first_word(s) == s.subrange(0, k),
    decreases s.len(),
{
    if s.len() == 0 || s[0] == ' ' {
        assert(k == 0);
        assert(s.subrange(0, k) =~= Seq::<char>::empty());
    } else {
        lemma_first_word_prefix(s.drop_first(), k - 1);
        assert(s.subrange(0, k) =~= seq![s[0]] + s.drop_first().subrange(0, k - 1));
    }
}

/// The first word of a text.
pub fn first_word_of(text: &str) -> (r: String)
    ensures
        r@ == first_word(text@),
{
    let n = text.unicode_len();
    let mut k: usize = 0;
    while k < n && text.get_char(k) != ' '
        invariant
            n == text@.len(),
            k <= n,
            forall|j: int| 0 <= j < k ==> text@[j] != ' ',
        decreases n - k,
    {
        k = k + 1;
    }
    proof {
        lemma_first_word_prefix(text@, k as int);
    }
    String::from_str(text.substring_char(0, k))
}

/// Names of the game's enumerations, taken from the variant identifiers.
pub trait NameFromEnum {
    /// The identifier of the variant.
    spec fn spec_ident(&self) -> Seq<char>;

    /// The identifier of the variant.
    fn ident(&self) -> (r: &'static str)
        ensures
            r@ == self.spec_ident(),
    ;

    /// The variant's name as shown to the player, e.g. "Saudi Arabia".
    fn to_name(&self) -> (r: String)
        ensures
            r@ == split_words(self.spec_ident()),
    {
        display_name(self.ident())
    }

    /// The variant's name in lower case, e.g. "saudi arabia".
    fn to_lowername(&self) -> (r: String)
        ensures
            r@ == lower_text(split_words(self.spec_ident())),
    {
        display_lowername(self.ident())
    }
}

} // verus!
