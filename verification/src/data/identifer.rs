//! The identifier sanitizer: every name the caller supplies is converted to
//! a guaranteed-legal, non-reserved JavaScript / TypeScript identifier token.
use vstd::prelude::*;

use crate::text::{digit_char, escape_text, hex_text, push_char, str_equal};
use crate::text::escape_char as text_escape_char;

verus! {

/// Whether `c` may stand unescaped as the first character of an identifier:
/// an ASCII letter, `$` or `_`.
pub open spec fn is_first_safe_char(c: char) -> bool {
    (97 <= c as u32 && c as u32 <= 122) || (65 <= c as u32 && c as u32 <= 90) || c as u32 == 36
        || c as u32 == 95
}

/// Whether `c` may stand unescaped after the first character: an ASCII
/// letter, a digit, `$` or `_`.
pub open spec fn is_safe_char(c: char) -> bool {
    is_first_safe_char(c) || (48 <= c as u32 && c as u32 <= 57)
}

/// The encoding of the first character: itself when safe, escaped otherwise.
pub open spec fn first_char_text(c: char) -> Seq<char> {
    if is_first_safe_char(c) {
        seq![c]
    } else {
        escape_text(c)
    }
}

/// The encoding of a character after the first: itself when safe, escaped
/// otherwise.
pub open spec fn tail_char_text(c: char) -> Seq<char> {
    if is_safe_char(c) {
        seq![c]
    } else {
        escape_text(c)
    }
}

/// The encoding of all characters after the first.
pub open spec fn tail_text(s: Seq<char>) -> Seq<char>
    decreases s.len(),
{
    if s.len() == 0 {
        Seq::<char>::empty()
    } else {
        tail_char_text(s[0]) + tail_text(s.drop_first())
    }
}

/// The fixed reserved-word set: language keywords plus ambiguous globals.
/// An encoded identifier that equals a member gets a trailing `_`.
pub open spec fn is_reserved_word(s: Seq<char>) -> bool {
    ||| s == "await"@
    ||| s == "break"@
    ||| s == "case"@
    ||| s == "catch"@
    ||| s == "class"@
    ||| s == "const"@
    ||| s == "continue"@
    ||| s == "debugger"@
    ||| s == "default"@
    ||| s == "delete"@
    ||| s == "do"@
    ||| s == "else"@
    ||| s == "export"@
    ||| s == "extends"@
    ||| s == "finally"@
    ||| s == "for"@
    ||| s == "function"@
    ||| s == "if"@
    ||| s == "import"@
    ||| s == "in"@
    ||| s == "instanceof"@
    ||| s == "new"@
    ||| s == "return"@
    ||| s == "super"@
    ||| s == "switch"@
    ||| s == "this"@
    ||| s == "throw"@
    ||| s == "try"@
    ||| s == "typeof"@
    ||| s == "var"@
    ||| s == "void"@
    ||| s == "while"@
    ||| s == "with"@
    ||| s == "yield"@
    ||| s == "let"@
    ||| s == "static"@
    ||| s == "enum"@
    ||| s == "implements"@
    ||| s == "package"@
    ||| s == "protected"@
    ||| s == "interface"@
    ||| s == "private"@
    ||| s == "public"@
    ||| s == "null"@
    ||| s == "true"@
    ||| s == "false"@
    ||| s == "any"@
    ||| s == "boolean"@
    ||| s == "constructor"@
    ||| s == "declare"@
    ||| s == "get"@
    ||| s == "module"@
    ||| s == "require"@
    ||| s == "number"@
    ||| s == "set"@
    ||| s == "string"@
    ||| s == "symbol"@
    ||| s == "type"@
    ||| s == "from"@
    ||| s == "of"@
    ||| s == "as"@
    ||| s == "unknown"@
    ||| s == "Infinity"@
    ||| s == "NaN"@
    ||| s == "undefined"@
    ||| s == "top"@
    ||| s == "closed"@
    ||| s == "self"@
}

/// What the sanitizer returns for the given text: `$00` for empty input,
/// otherwise the encoded characters, with `_` appended when the encoding
/// equals a reserved word.
pub open spec fn from_string_text(s: Seq<char>) -> Seq<char> {
    if s.len() == 0 {
        "$00"@
    } else {
        let e = first_char_text(s[0]) + tail_text(s.drop_first());
        if is_reserved_word(e) {
            e + "_"@
        } else {
            e
        }
    }
}

/// Whether the text may stand directly after a dot as a property name:
/// non-empty, a safe first character, and safe characters after it.
/// Reserved words are not excluded: they are legal property names.
pub open spec fn spec_is_safe_property_name(s: Seq<char>) -> bool {
    s.len() > 0 && is_first_safe_char(s[0]) && (forall|i: int|
        1 <= i < s.len() ==> is_safe_char(#[trigger] s[i]))
}

/// A wrapped string guaranteed to be a legal, non-reserved identifier
/// token; produced only by the sanitizer.
#[derive(PartialEq, Eq, Debug)]
pub struct Identifer {
    value: String,
}

impl View for Identifer {
    type V = Seq<char>;

    closed spec fn view(&self) -> Seq<char> {
        self.value@
    }
}

impl Identifer {
    /// The identifier's text.
    pub fn get(&self) -> (r: String)
        ensures
            r@ == self@,
    {
        self.value.clone()
    }
}

fn first_safe(c: char) -> (b: bool)
    ensures
        b == is_first_safe_char(c),
{
    let n = c as u32;
    (97 <= n && n <= 122) || (65 <= n && n <= 90) || n == 36 || n == 95
}

fn tail_safe(c: char) -> (b: bool)
    ensures
        b == is_safe_char(c),
{
    let n = c as u32;
    first_safe(c) || (48 <= n && n <= 57)
}

/// `$` followed by the lowercase hexadecimal of the character's code point.
pub fn escape_char(c: char) -> (r: String)
    ensures
        r@ == escape_text(c),
{
    text_escape_char(c)
}

fn is_reserved(s: &String) -> (b: bool)
    ensures
        b == is_reserved_word(s@),
{
    let t = s.as_str();
    str_equal(t, "await") || str_equal(t, "break") || str_equal(t, "case") || str_equal(t, "catch")
        || str_equal(t, "class") || str_equal(t, "const") || str_equal(t, "continue") || str_equal(
        t,
        "debugger",
    ) || str_equal(t, "default") || str_equal(t, "delete") || str_equal(t, "do") || str_equal(
        t,
        "else",
    ) || str_equal(t, "export") || str_equal(t, "extends") || str_equal(t, "finally") || str_equal(
        t,
        "for",
    ) || str_equal(t, "function") || str_equal(t, "if") || str_equal(t, "import") || str_equal(
        t,
        "in",
    ) || str_equal(t, "instanceof") || str_equal(t, "new") || str_equal(t, "return") || str_equal(
        t,
        "super",
    ) || str_equal(t, "switch") || str_equal(t, "this") || str_equal(t, "throw") || str_equal(
        t,
        "try",
    ) || str_equal(t, "typeof") || str_equal(t, "var") || str_equal(t, "void") || str_equal(
        t,
        "while",
    ) || str_equal(t, "with") || str_equal(t, "yield") || str_equal(t, "let") || str_equal(
        t,
        "static",
    ) || str_equal(t, "enum") || str_equal(t, "implements") || str_equal(t, "package") || str_equal(
        t,
        "protected",
    ) || str_equal(t, "interface") || str_equal(t, "private") || str_equal(t, "public")
        || str_equal(t, "null") || str_equal(t, "true") || str_equal(t, "false") || str_equal(
        t,
        "any",
    ) || str_equal(t, "boolean") || str_equal(t, "constructor") || str_equal(t, "declare")
        || str_equal(t, "get") || str_equal(t, "module") || str_equal(t, "require") || str_equal(
        t,
        "number",
    ) || str_equal(t, "set") || str_equal(t, "string") || str_equal(t, "symbol") || str_equal(
        t,
        "type",
    ) || str_equal(t, "from") || str_equal(t, "of") || str_equal(t, "as") || str_equal(
        t,
        "unknown",
    ) || str_equal(t, "Infinity") || str_equal(t, "NaN") || str_equal(t, "undefined") || str_equal(
        t,
        "top",
    ) || str_equal(t, "closed") || str_equal(t, "self")
}

proof fn lemma_tail_text_push(s: Seq<char>, c: char)
    ensures
        tail_text(s.push(c)) == tail_text(s) + tail_char_text(c),
    decreases s.len(),
{
    if s.len() == 0 {
        assert(s.push(c).drop_first() =~= Seq::<char>::empty());
        assert(s.push(c)[0] == c);
        assert(tail_text(s.push(c)) == tail_char_text(c) + tail_text(Seq::<char>::empty()));
        assert(tail_text(s.push(c)) =~= tail_text(s) + tail_char_text(c));
    } else {
        assert(s.push(c).drop_first() =~= s.drop_first().push(c));
        lemma_tail_text_push(s.drop_first(), c);
        assert(tail_text(s.push(c)) =~= tail_text(s) + tail_char_text(c));
    }
}

/// Convert arbitrary text to a legal, non-reserved identifier: characters
/// outside the safe sets are escaped as `$` plus the hexadecimal code
/// point, and a reserved result gets a trailing `_`.
pub fn from_string(word: &str) -> (r: Identifer)
    ensures
        r@ == from_string_text(word@),
{
    let n = word.unicode_len();
    if n == 0 {
        return Identifer { value: String::from_str("$00") };
    }
    let c0 = word.get_char(0);
    let mut result: String;
    if first_safe(c0) {
        result = String::new();
        push_char(&mut result, c0);
        assert(result@ =~= first_char_text(word@[0]));
    } else {
        result = text_escape_char(c0);
    }
    let mut i: usize = 1;
    #[verifier::loop_isolation(false)]
    while i < n
        invariant
            1 <= i <= n,
            result@ == first_char_text(word@[0]) + tail_text(word@.subrange(1, i as int)),
        decreases n - i,
    {
        let c = word.get_char(i);
        let ghost pre = word@.subrange(1, i as int);
        if tail_safe(c) {
            push_char(&mut result, c);
        } else {
            let e = text_escape_char(c);
            result.append(e.as_str());
        }
        proof {
            assert(word@.subrange(1, i + 1 as int) =~= pre.push(word@[i as int]));
            lemma_tail_text_push(pre, word@[i as int]);
            assert(result@ =~= first_char_text(word@[0]) + tail_text(
                word@.subrange(1, i + 1 as int),
            ));
        }
        i += 1;
    }
    proof {
        assert(word@.subrange(1, n as int) =~= word@.drop_first());
    }
    if is_reserved(&result) {
        result.append("_");
        Identifer { value: result }
    } else {
        Identifer { value: result }
    }
}

/// What it means for text to be a legal, non-reserved identifier token:
/// non-empty, a safe first character, only safe characters, and not a
/// member of the reserved-word set.
pub open spec fn is_legal_identifier(s: Seq<char>) -> bool {
    &&& s.len() > 0
    &&& is_first_safe_char(s[0])
    &&& forall|i: int| 0 <= i < s.len() ==> is_safe_char(#[trigger] s[i])
    &&& !is_reserved_word(s)
}

proof fn lemma_digit_safe(d: nat)
    ensures
        is_safe_char(digit_char(d)),
        digit_char(d) as u32 != 36,
{
}

proof fn lemma_hex_text_safe(n: nat)
    ensures
        hex_text(n).len() >= 1,
        forall|i: int| 0 <= i < hex_text(n).len() ==> is_safe_char(#[trigger] hex_text(n)[i]),
    decreases n,
{
    if n < 16 {
        lemma_digit_safe(n);
    } else {
        lemma_hex_text_safe(n / 16);
        lemma_digit_safe(n % 16);
    }
}

proof fn lemma_escape_safe(c: char)
    ensures
        escape_text(c).len() >= 1,
        is_first_safe_char(escape_text(c)[0]),
        forall|i: int|
            0 <= i < escape_text(c).len() ==> is_safe_char(#[trigger] escape_text(c)[i]),
{
    lemma_hex_text_safe((c as u32) as nat);
    assert(escape_text(c)[0] == '$');
    assert('$' as u32 == 36);
}

proof fn lemma_first_char_text_safe(c: char)
    ensures
        first_char_text(c).len() >= 1,
        is_first_safe_char(first_char_text(c)[0]),
        forall|i: int|
            0 <= i < first_char_text(c).len() ==> is_safe_char(#[trigger] first_char_text(c)[i]),
{
    if !is_first_safe_char(c) {
        lemma_escape_safe(c);
    }
}

proof fn lemma_tail_text_safe(s: Seq<char>)
    ensures
        forall|i: int| 0 <= i < tail_text(s).len() ==> is_safe_char(#[trigger] tail_text(s)[i]),
    decreases s.len(),
{
    if s.len() > 0 {
        if !is_safe_char(s[0]) {
            lemma_escape_safe(s[0]);
        }
        lemma_tail_text_safe(s.drop_first());
        let a = tail_char_text(s[0]);
        let b = tail_text(s.drop_first());
        assert(tail_text(s) == a + b);
        assert forall|i: int| 0 <= i < tail_text(s).len() implies is_safe_char(
            #[trigger] tail_text(s)[i],
        ) by {
            if i < a.len() {
                assert(tail_text(s)[i] == a[i]);
            } else {
                assert(tail_text(s)[i] == b[i - a.len()]);
            }
        }
    }
}

/// No member of the reserved-word set starts with `$` or ends with `_`.
proof fn lemma_not_reserved(s: Seq<char>)
    requires
        s.len() > 0,
        s[0] == '$' || s[s.len() - 1] == '_',
    ensures
        !is_reserved_word(s),
{
    reveal_strlit("await");
    reveal_strlit("break");
    reveal_strlit("case");
    reveal_strlit("catch");
    reveal_strlit("class");
    reveal_strlit("const");
    reveal_strlit("continue");
    reveal_strlit("debugger");
    reveal_strlit("default");
    reveal_strlit("delete");
    reveal_strlit("do");
    reveal_strlit("else");
    reveal_strlit("export");
    reveal_strlit("extends");
    reveal_strlit("finally");
    reveal_strlit("for");
    reveal_strlit("function");
    reveal_strlit("if");
    reveal_strlit("import");
    reveal_strlit("in");
    reveal_strlit("instanceof");
    reveal_strlit("new");
    reveal_strlit("return");
    reveal_strlit("super");
    reveal_strlit("switch");
    reveal_strlit("this");
    reveal_strlit("throw");
    reveal_strlit("try");
    reveal_strlit("typeof");
    reveal_strlit("var");
    reveal_strlit("void");
    reveal_strlit("while");
    reveal_strlit("with");
    reveal_strlit("yield");
    reveal_strlit("let");
    reveal_strlit("static");
    reveal_strlit("enum");
    reveal_strlit("implements");
    reveal_strlit("package");
    reveal_strlit("protected");
    reveal_strlit("interface");
    reveal_strlit("private");
    reveal_strlit("public");
    reveal_strlit("null");
    reveal_strlit("true");
    reveal_strlit("false");
    reveal_strlit("any");
    reveal_strlit("boolean");
    reveal_strlit("constructor");
    reveal_strlit("declare");
    reveal_strlit("get");
    reveal_strlit("module");
    reveal_strlit("require");
    reveal_strlit("number");
    reveal_strlit("set");
    reveal_strlit("string");
    reveal_strlit("symbol");
    reveal_strlit("type");
    reveal_strlit("from");
    reveal_strlit("of");
    reveal_strlit("as");
    reveal_strlit("unknown");
    reveal_strlit("Infinity");
    reveal_strlit("NaN");
    reveal_strlit("undefined");
    reveal_strlit("top");
    reveal_strlit("closed");
    reveal_strlit("self");
}

/// The sanitizer's guarantee: for every input text, including the empty
/// string and non-ASCII text, the result is a non-empty token that starts
/// with a letter, `$` or `_`, holds only letters, digits, `$` and `_`, and
/// is not a reserved word.
pub proof fn lemma_from_string_legal(s: Seq<char>)
    ensures
        is_legal_identifier(from_string_text(s)),
{
    if s.len() == 0 {
        reveal_strlit("$00");
        assert(from_string_text(s) == "$00"@);
        assert("$00"@[0] == '$');
        assert('$' as u32 == 36);
        assert('0' as u32 == 48);
        lemma_not_reserved("$00"@);
        assert(forall|i: int|
            0 <= i < "$00"@.len() ==> is_safe_char(#[trigger] "$00"@[i]));
    } else {
        let e = first_char_text(s[0]) + tail_text(s.drop_first());
        lemma_first_char_text_safe(s[0]);
        lemma_tail_text_safe(s.drop_first());
        assert(e[0] == first_char_text(s[0])[0]);
        assert(forall|i: int| 0 <= i < e.len() ==> is_safe_char(#[trigger] e[i]));
        if is_reserved_word(e) {
            reveal_strlit("_");
            let r = e + "_"@;
            assert("_"@[0] == '_');
            assert(r[r.len() - 1] == '_');
            lemma_not_reserved(r);
            assert('_' as u32 == 95);
            assert(from_string_text(s) == r);
            assert(forall|i: int| 0 <= i < r.len() ==> is_safe_char(#[trigger] r[i]));
        }
    }
}

/// Whether the text may stand directly after a dot as a property name.
pub fn is_safe_property_name(word: &str) -> (r: bool)
    ensures
        r == spec_is_safe_property_name(word@),
{
    let n = word.unicode_len();
    if n == 0 {
        return false;
    }
    if !first_safe(word.get_char(0)) {
        return false;
    }
    let mut i: usize = 1;
    #[verifier::loop_isolation(false)]
    while i < n
        invariant
            1 <= i <= n,
            forall|j: int| 1 <= j < i ==> is_safe_char(#[trigger] word@[j]),
        decreases n - i,
    {
        if !tail_safe(word.get_char(i)) {
            return false;
        }
        i += 1;
    }
    true
}

} // verus!
