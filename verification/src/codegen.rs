//! Sequential code allocation: deriving a prefix from a display name,
//! incrementing the highest existing code in a scope, and building the
//! parameterized lookup queries.
//!
//! A code is `{prefix}{separator}{number}` with the number zero-padded to a
//! fixed digit width; within one scope codes are allocated in strictly
//! increasing numeric order.

use vstd::prelude::*;

use crate::errors::CodeError;
use crate::strutil::all_digits;
use crate::strutil::digits_val;
use crate::strutil::nonempty;
use crate::strutil::pad_str;
use crate::strutil::pow10;
use crate::strutil::prefix_chars;
use crate::strutil::split_words;
use crate::strutil::take_at_most;
use crate::strutil::upper_char;
use crate::strutil::upper_char_exec;
use crate::strutil::upper_seq;
use crate::strutil::views_of;
use crate::strutil::words_of;

verus! {

/// Shape of one allocation scope's codes: the table and column identifiers,
/// the optional tenant column, and the prefix, digit-width and separator of
/// the generated codes.
#[derive(Debug, Clone)]
pub struct CodeGeneratorConfig {
    pub table_name: String,
    pub code_column: String,
    /// Some scopes are tenant-independent and carry no workspace column.
    pub workspace_column: Option<String>,
    /// How many characters of the display name feed the prefix.
    pub prefix_length: usize,
    /// Digit width of the numeric suffix.
    pub number_length: usize,
    /// Separates prefix and number inside a code.
    pub separator: String,
}

impl CodeGeneratorConfig {
    /// A usable configuration: at least one prefix character and a digit
    /// width whose maximum fits the arithmetic. The separator may be any
    /// string.
    pub open spec fn wf(self) -> bool {
        &&& 1 <= self.prefix_length
        &&& 1 <= self.number_length <= 9
    }
}

impl Default for CodeGeneratorConfig {
    /// The default scope: a `code` column scoped by `workspace_id`, a two
    /// character prefix, five digits, and `-` as separator.
    fn default() -> (c: Self)
        ensures
            c.table_name@ == Seq::<char>::empty(),
            c.code_column@ == "code"@,
            c.workspace_column matches Some(w) && w@ == "workspace_id"@,
            c.prefix_length == 2,
            c.number_length == 5,
            c.separator@ == "-"@,
            c.wf(),
    {
        let c = CodeGeneratorConfig {
            table_name: String::new(),
            code_column: "code".to_owned(),
            workspace_column: Some("workspace_id".to_owned()),
            prefix_length: 2,
            number_length: 5,
            separator: "-".to_owned(),
        };
        proof {
            reveal_strlit("-");
        }
        c
    }
}

/// The prefix derived from a display name: `X` for an empty name, the first
/// `k` characters of a single token, or the initials of the first `k`
/// tokens, all upper-cased.
pub open spec fn prefix_of(name: Seq<char>, k: nat) -> Seq<char> {
    let ws = words_of(name);
    if ws.len() == 0 {
        seq!['X']
    } else if ws.len() == 1 {
        upper_seq(take_at_most(ws[0], k))
    } else {
        let n = if ws.len() <= k {
            ws.len()
        } else {
            k
        };
        Seq::new(n, |i: int| upper_char(ws[i].first()))
    }
}

/// Every token of a name is nonempty.
proof fn lemma_words_nonempty(s: Seq<char>, i: int)
    requires
        0 <= i < words_of(s).len(),
    ensures
        words_of(s)[i].len() > 0,
{
    crate::strutil::space_segments(s).lemma_filter_pred(nonempty(), i);
}

/// Query parameters of a next-code request.
#[derive(Debug, Clone)]
pub struct NextCodeQuery {
    pub name: String,
}

/// Allocates sequential, human-readable codes.
pub struct CodeGenerator;

impl CodeGenerator {
    pub fn new() -> (g: Self) {
        CodeGenerator
    }

    /// Derives the code prefix from a display name. Never empty.
    pub fn generate_prefix_from_name(&self, name: &str, max_length: usize) -> (p: String)
        requires
            max_length >= 1,
        ensures
            p@ == prefix_of(name@, max_length as nat),
            p@.len() >= 1,
    {
        let words = split_words(name);
        if words.len() == 0 {
            let r = "X".to_owned();
            proof {
                reveal_strlit("X");
                assert(r@ =~= seq!['X']);
            }
            return r;
        }
        if words.len() == 1 {
            proof {
                lemma_words_nonempty(name@, 0);
                assert(views_of(words@)[0] == words@[0]@);
            }
            let w = prefix_chars(words[0].as_str(), max_length);
            let up = crate::strutil::upper_str(w.as_str());
            return up;
        }
        let n = if words.len() <= max_length {
            words.len()
        } else {
            max_length
        };
        let mut p = String::new();
        let mut i: usize = 0;
        while i < n
            invariant
                0 <= i <= n,
                n <= words@.len(),
                views_of(words@) =~= words_of(name@),
                p@ =~= Seq::new(i as nat, |j: int| upper_char(words_of(name@)[j].first())),
            decreases n - i,
        {
            proof {
                lemma_words_nonempty(name@, i as int);
                assert(views_of(words@)[i as int] == words@[i as int]@);
            }
            let c = words[i].as_str().get_char(0);
            crate::strutil::push_char(&mut p, upper_char_exec(c));
            proof {
                assert(p@ =~= Seq::new((i + 1) as nat, |j: int| upper_char(
                    words_of(name@)[j].first(),
                )));
            }
            i = i + 1;
        }
        p
    }
}

// ---------------------------------------------------------------------------
// Matching, parsing and incrementing codes
// ---------------------------------------------------------------------------

/// Whether `code` is exactly `prefix`, the separator, and `width` digits.
pub open spec fn code_matches(code: Seq<char>, prefix: Seq<char>, sep: Seq<char>, width: nat) -> bool {
    &&& code.len() == prefix.len() + sep.len() + width
    &&& code.take(prefix.len() as int) == prefix
    &&& code.subrange(prefix.len() as int, (prefix.len() + sep.len()) as int) == sep
    &&& all_digits(code.skip((prefix.len() + sep.len()) as int))
}

/// The numeric suffix of a code: the value of its last `width` characters.
pub open spec fn code_num(code: Seq<char>, width: nat) -> nat {
    digits_val(code.skip(code.len() - width))
}

/// Whether a stored code parses, read from the right, as some stem followed
/// by the separator and exactly `number_length` digits.
pub open spec fn code_parse_ok(code: Seq<char>, cfg: CodeGeneratorConfig) -> bool {
    let w = cfg.number_length as int;
    let s = cfg.separator@.len() as int;
    &&& code.len() >= w + s
    &&& code.subrange(code.len() - w - s, code.len() - w) == cfg.separator@
    &&& all_digits(code.skip(code.len() - w))
}

/// The stem of a parsed code: everything before the trailing separator and
/// digit group.
pub open spec fn code_stem(code: Seq<char>, cfg: CodeGeneratorConfig) -> Seq<char> {
    code.take(code.len() - cfg.number_length - cfg.separator@.len())
}

/// The successor of a stored code under a configuration: the same stem and
/// separator with the trailing digit group incremented and re-padded.
/// `InvalidFormat` when the stored code does not parse, `Exhausted` when the
/// incremented number would not fit in the digit width.
pub open spec fn increment_result(code: Seq<char>, cfg: CodeGeneratorConfig) -> Result<
    Seq<char>,
    CodeError,
> {
    if !code_parse_ok(code, cfg) {
        Err(CodeError::InvalidFormat)
    } else {
        let next = code_num(code, cfg.number_length as nat) + 1;
        if next > pow10(cfg.number_length as nat) - 1 {
            Err(CodeError::Exhausted)
        } else {
            Ok(code_stem(code, cfg) + cfg.separator@ + pad_str(next, cfg.number_length as nat))
        }
    }
}

/// The next code given the greatest existing one, or the initial code of a
/// fresh scope.
pub open spec fn next_code_result(
    prefix: Seq<char>,
    last: Option<Seq<char>>,
    cfg: CodeGeneratorConfig,
) -> Result<Seq<char>, CodeError> {
    match last {
        None => Ok(prefix + cfg.separator@ + pad_str(1, cfg.number_length as nat)),
        Some(code) => increment_result(code, cfg),
    }
}

impl CodeGenerator {
    /// Parses a stored code from the right and produces its successor,
    /// re-padded to the configured digit width.
    pub fn increment_code(&self, last_code: &str, config: &CodeGeneratorConfig) -> (r: Result<
        String,
        CodeError,
    >)
        requires
            config.wf(),
        ensures
            match (r, increment_result(last_code@, *config)) {
                (Ok(code), Ok(s)) => code@ == s,
                (Err(e1), Err(e2)) => e1 == e2,
                _ => false,
            },
    {
        let n = last_code.unicode_len();
        let w = config.number_length;
        let slen = config.separator.as_str().unicode_len();
        if n < w || n - w < slen {
            return Err(CodeError::InvalidFormat);
        }
        let digits = last_code.substring_char(n - w, n);
        proof {
            assert(digits@ =~= last_code@.skip(n - w));
        }
        let num = match crate::strutil::parse_digits_u64(digits) {
            Some(v) => v,
            None => {
                // The digit group is one to nine characters, so when it is
                // all digits it always parses; `None` means a non-digit.
                proof {
                    if all_digits(last_code@.skip(n - w)) {
                        crate::strutil::lemma_digits_val_bound(last_code@.skip(n - w));
                        crate::strutil::lemma_pow10_mono(w as nat, 9);
                        reveal_with_fuel(pow10, 10);
                    }
                }
                return Err(CodeError::InvalidFormat);
            },
        };
        let sep_part = last_code.substring_char(n - w - slen, n - w);
        if !crate::strutil::chars_eq(sep_part, config.separator.as_str()) {
            return Err(CodeError::InvalidFormat);
        }
        proof {
            crate::strutil::lemma_digits_val_bound(last_code@.skip(n - w));
            crate::strutil::lemma_pow10_mono(w as nat, 9);
            reveal_with_fuel(pow10, 10);
        }
        let next = num + 1;
        let p10 = crate::strutil::pow10_u64(config.number_length);
        proof {
            crate::strutil::lemma_pow10_pos(config.number_length as nat);
        }
        let max_number = p10 - 1;
        if next > max_number {
            return Err(CodeError::Exhausted);
        }
        let stem = last_code.substring_char(0, n - w - slen);
        let padded = crate::strutil::pad_of_u64(next, config.number_length);
        let with_sep = stem.to_owned().concat(config.separator.as_str());
        let r = with_sep.concat(padded.as_str());
        proof {
            assert(r@ =~= code_stem(last_code@, *config) + config.separator@ + pad_str(
                next as nat,
                config.number_length as nat,
            ));
        }
        Ok(r)
    }

    /// The code after `last`, or the initial code of the scope when no code
    /// matching the prefix exists yet.
    pub fn next_code_from_last(
        &self,
        prefix: &str,
        last: Option<&String>,
        config: &CodeGeneratorConfig,
    ) -> (r: Result<String, CodeError>)
        requires
            config.wf(),
        ensures
            match (r, next_code_result(prefix@, match last {
                Some(s) => Some(s@),
                None => None,
            }, *config)) {
                (Ok(code), Ok(s)) => code@ == s,
                (Err(e1), Err(e2)) => e1 == e2,
                _ => false,
            },
    {
        match last {
            Some(code) => self.increment_code(code.as_str(), config),
            None => {
                let padded = crate::strutil::pad_of_u64(1, config.number_length);
                let with_sep = prefix.to_owned().concat(config.separator.as_str());
                let r = with_sep.concat(padded.as_str());
                proof {
                    assert(r@ =~= prefix@ + config.separator@ + pad_str(
                        1,
                        config.number_length as nat,
                    ));
                }
                Ok(r)
            },
        }
    }
}

/// Whether `code` matches `{prefix}{separator}{digits}` with the given width.
pub fn matches_code_exec(code: &str, prefix: &str, sep: &str, width: usize) -> (r: bool)
    requires
        width <= 9,
    ensures
        r == code_matches(code@, prefix@, sep@, width as nat),
{
    let clen = code.unicode_len();
    let plen = prefix.unicode_len();
    let slen = sep.unicode_len();
    if clen < plen || clen - plen < slen || clen - plen - slen != width {
        return false;
    }
    assert(clen == plen + slen + width);
    if !crate::strutil::starts_with_str(code, prefix) {
        return false;
    }
    let sep_part = code.substring_char(plen, plen + slen);
    if !crate::strutil::chars_eq(sep_part, sep) {
        proof {
            assert(sep_part@ =~= code@.subrange(plen as int, (plen + slen) as int));
        }
        return false;
    }
    let mut i: usize = plen + slen;
    while i < clen
        invariant
            plen + slen <= i <= clen,
            clen == code@.len(),
            plen == prefix@.len(),
            slen == sep@.len(),
            forall|k: int|
                plen + slen <= k < i ==> crate::strutil::is_digit_char(#[trigger] code@[k]),
        decreases clen - i,
    {
        let c = code.get_char(i);
        if !('0' <= c && c <= '9') {
            proof {
                assert(code@.skip((plen + slen) as int)[i - plen - slen] == code@[i as int]);
            }
            return false;
        }
        i = i + 1;
    }
    proof {
        assert(sep_part@ =~= code@.subrange(plen as int, (plen + slen) as int));
        assert forall|k: int|
            0 <= k < code@.skip((plen + slen) as int).len() implies crate::strutil::is_digit_char(
            #[trigger] code@.skip((plen + slen) as int)[k],
        ) by {
            assert(code@.skip((plen + slen) as int)[k] == code@[k + plen + slen]);
        }
    }
    true
}

// ---------------------------------------------------------------------------
// An allocation scope's stored codes
// ---------------------------------------------------------------------------

/// The codes already allocated in one scope, with insert-time uniqueness:
/// the in-memory model of the scope's table and its unique constraint.
#[derive(Debug, Clone)]
pub struct CodeScope {
    pub codes: Vec<String>,
}

impl CodeScope {
    pub open spec fn contains_code(self, code: Seq<char>) -> bool {
        exists|i: int| 0 <= i < self.codes@.len() && self.codes@[i]@ == code
    }

    pub fn new() -> (s: Self)
        ensures
            s.codes@.len() == 0,
    {
        CodeScope { codes: Vec::new() }
    }

    /// Direct equality lookup, the re-verification callers run before an
    /// insert.
    pub fn exists_code(&self, code: &str) -> (r: bool)
        ensures
            r == self.contains_code(code@),
    {
        let mut i: usize = 0;
        while i < self.codes.len()
            invariant
                0 <= i <= self.codes@.len(),
                forall|k: int| 0 <= k < i ==> self.codes@[k]@ != code@,
            decreases self.codes@.len() - i,
        {
            if crate::strutil::chars_eq(self.codes[i].as_str(), code) {
                return true;
            }
            i = i + 1;
        }
        false
    }

    /// The model of the insert layer's unique constraint: an identical code
    /// is rejected as a retryable conflict, never stored twice.
    pub fn insert_code(&mut self, code: String) -> (r: Result<(), CodeError>)
        ensures
            match r {
                Ok(()) => !old(self).contains_code(code@) && final(self).codes@
                    == old(self).codes@.push(code),
                Err(e) => e == CodeError::Conflict && old(self).contains_code(code@)
                    && final(self).codes@ == old(self).codes@,
            },
    {
        if self.exists_code(code.as_str()) {
            Err(CodeError::Conflict)
        } else {
            self.codes.push(code);
            Ok(())
        }
    }

    /// A code in the scope that matches the pattern and carries the greatest
    /// numeric suffix, or `None` when nothing in the scope matches.
    pub fn max_matching(&self, prefix: &str, config: &CodeGeneratorConfig) -> (r: Option<String>)
        requires
            config.wf(),
        ensures
            match r {
                None => forall|i: int| 0 <= i < self.codes@.len() ==> !code_matches(
                    #[trigger] self.codes@[i]@,
                    prefix@,
                    config.separator@,
                    config.number_length as nat,
                ),
                Some(best) => {
                    &&& code_matches(
                        best@,
                        prefix@,
                        config.separator@,
                        config.number_length as nat,
                    )
                    &&& self.contains_code(best@)
                    &&& forall|i: int|
                        0 <= i < self.codes@.len() && code_matches(
                            #[trigger] self.codes@[i]@,
                            prefix@,
                            config.separator@,
                            config.number_length as nat,
                        ) ==> code_num(self.codes@[i]@, config.number_length as nat) <= code_num(
                            best@,
                            config.number_length as nat,
                        )
                },
            },
    {
        let sep = config.separator.as_str();
        let width = config.number_length;
        let mut best: Option<String> = None;
        let mut best_num: u64 = 0;
        let mut i: usize = 0;
        while i < self.codes.len()
            invariant
                0 <= i <= self.codes@.len(),
                sep@ == config.separator@,
                width == config.number_length,
                config.wf(),
                match best {
                    None => forall|k: int| 0 <= k < i ==> !code_matches(
                        #[trigger] self.codes@[k]@,
                        prefix@,
                        sep@,
                        width as nat,
                    ),
                    Some(b) => {
                        &&& code_matches(b@, prefix@, sep@, width as nat)
                        &&& self.contains_code(b@)
                        &&& best_num == code_num(b@, width as nat)
                        &&& forall|k: int|
                            0 <= k < i && code_matches(
                                #[trigger] self.codes@[k]@,
                                prefix@,
                                sep@,
                                width as nat,
                            ) ==> code_num(self.codes@[k]@, width as nat) <= best_num
                    },
                },
            decreases self.codes@.len() - i,
        {
            let c = &self.codes[i];
            if matches_code_exec(c.as_str(), prefix, sep, width) {
                let cl = c.as_str().unicode_len();
                assert(cl >= width);
                let digits = c.as_str().substring_char(cl - width, cl);
                proof {
                    assert(digits@ =~= c@.skip(cl - width));
                }
                let num = match crate::strutil::parse_digits_u64(digits) {
                    Some(v) => v,
                    None => {
                        // A matching suffix is one to nine digits, so it
                        // always parses; this arm cannot be reached.
                        proof {
                            assert(c@.skip(cl - width) =~= c@.skip(
                                (prefix@.len() + sep@.len()) as int,
                            ));
                            crate::strutil::lemma_digits_val_bound(c@.skip(cl - width));
                            crate::strutil::lemma_pow10_mono(width as nat, 9);
                            reveal_with_fuel(pow10, 10);
                            assert(false);
                        }
                        0
                    },
                };
                match &best {
                    None => {
                        best = Some(c.clone());
                        best_num = num;
                    },
                    Some(_) => {
                        if num > best_num {
                            best = Some(c.clone());
                            best_num = num;
                        }
                    },
                }
            }
            i = i + 1;
        }
        best
    }
}

impl CodeGenerator {
    /// The next available code in a scope for a display name: derives the
    /// prefix, finds the greatest matching code, and increments it, or
    /// starts the scope at one.
    pub fn get_next_available_code(
        &self,
        config: &CodeGeneratorConfig,
        name: &str,
        scope: &CodeScope,
    ) -> (r: Result<String, CodeError>)
        requires
            config.wf(),
        ensures
            ({
                let prefix = prefix_of(name@, config.prefix_length as nat);
                let no_match = forall|i: int| 0 <= i < scope.codes@.len() ==> !code_matches(
                    #[trigger] scope.codes@[i]@,
                    prefix,
                    config.separator@,
                    config.number_length as nat,
                );
                if no_match {
                    match (r, next_code_result(prefix, None::<Seq<char>>, *config)) {
                        (Ok(code), Ok(s)) => code@ == s,
                        (Err(e1), Err(e2)) => e1 == e2,
                        _ => false,
                    }
                } else {
                    exists|i: int|
                        {
                            &&& 0 <= i < scope.codes@.len()
                            &&& code_matches(
                                #[trigger] scope.codes@[i]@,
                                prefix,
                                config.separator@,
                                config.number_length as nat,
                            )
                            &&& (forall|k: int|
                                0 <= k < scope.codes@.len() && code_matches(
                                    #[trigger] scope.codes@[k]@,
                                    prefix,
                                    config.separator@,
                                    config.number_length as nat,
                                ) ==> code_num(scope.codes@[k]@, config.number_length as nat)
                                <= code_num(scope.codes@[i]@, config.number_length as nat))
                            &&& match (r, next_code_result(
                                prefix,
                                Some(scope.codes@[i]@),
                                *config,
                            )) {
                                (Ok(code), Ok(s)) => code@ == s,
                                (Err(e1), Err(e2)) => e1 == e2,
                                _ => false,
                            }
                        }
                }
            }),
    {
        let prefix = self.generate_prefix_from_name(name, config.prefix_length);
        let last = scope.max_matching(prefix.as_str(), config);
        self.next_code_from_last(prefix.as_str(), last.as_ref(), config)
    }

    /// Direct equality lookup in the scope.
    pub fn code_exists(&self, code: &str, scope: &CodeScope) -> (r: bool)
        ensures
            r == scope.contains_code(code@),
    {
        scope.exists_code(code)
    }
}

/// A fresh scope's first code has exactly the prescribed shape: the prefix,
/// the separator, and the digit width's worth of digits reading one.
pub proof fn lemma_initial_code_matches(prefix: Seq<char>, cfg: CodeGeneratorConfig)
    requires
        cfg.wf(),
    ensures
        next_code_result(prefix, None::<Seq<char>>, cfg) matches Ok(code) ==> code_matches(
            code,
            prefix,
            cfg.separator@,
            cfg.number_length as nat,
        ) && code_num(code, cfg.number_length as nat) == 1,
{
    let w = cfg.number_length as nat;
    let code = prefix + cfg.separator@ + pad_str(1, w);
    crate::strutil::lemma_pad_str(1, w);
    crate::strutil::lemma_pow10_mono(1, w);
    reveal_with_fuel(pow10, 2);
    crate::strutil::lemma_dec_str_len_le(1, w);
    crate::strutil::lemma_zeroes((w - crate::strutil::dec_str(1).len()) as nat);
    assert(pad_str(1, w).len() == w);
    assert(code.take(prefix.len() as int) =~= prefix);
    assert(code.subrange(
        prefix.len() as int,
        (prefix.len() + cfg.separator@.len()) as int,
    ) =~= cfg.separator@);
    assert(code.skip((prefix.len() + cfg.separator@.len()) as int) =~= pad_str(1, w));
    assert(code.skip(code.len() - w) =~= pad_str(1, w));
}

/// Allocation within a scope strictly increases: a successfully incremented
/// code keeps its stem and separator, and its digit group reads exactly one
/// above the code it came from, so no earlier number is ever reused.
pub proof fn lemma_increment_advances(code: Seq<char>, cfg: CodeGeneratorConfig)
    requires
        cfg.wf(),
        increment_result(code, cfg) matches Ok(_),
    ensures
        increment_result(code, cfg) matches Ok(next) ==> code_matches(
            next,
            code_stem(code, cfg),
            cfg.separator@,
            cfg.number_length as nat,
        ) && code_num(next, cfg.number_length as nat) == code_num(
            code,
            cfg.number_length as nat,
        ) + 1,
{
    let w = cfg.number_length as nat;
    let stem = code_stem(code, cfg);
    let n = code_num(code, w);
    let next = stem + cfg.separator@ + pad_str((n + 1) as nat, w);
    crate::strutil::lemma_pad_str((n + 1) as nat, w);
    crate::strutil::lemma_dec_str_len_le((n + 1) as nat, w);
    crate::strutil::lemma_zeroes((w - crate::strutil::dec_str((n + 1) as nat).len()) as nat);
    assert(pad_str((n + 1) as nat, w).len() == w);
    assert(next.take(stem.len() as int) =~= stem);
    assert(next.subrange(
        stem.len() as int,
        (stem.len() + cfg.separator@.len()) as int,
    ) =~= cfg.separator@);
    assert(next.skip((stem.len() + cfg.separator@.len()) as int) =~= pad_str((n + 1) as nat, w));
    assert(next.skip(next.len() - w) =~= pad_str((n + 1) as nat, w));
}

// ---------------------------------------------------------------------------
// The parameterized lookup queries
// ---------------------------------------------------------------------------

pub open spec fn is_ascii_alnum(c: char) -> bool {
    ('a' <= c && c <= 'z') || ('A' <= c && c <= 'Z') || ('0' <= c && c <= '9')
}

/// `s` with a backslash before every character that is not an ASCII letter
/// or digit, so it matches itself inside a POSIX regular expression.
pub open spec fn regex_escaped(s: Seq<char>) -> Seq<char>
    decreases s.len(),
{
    if s.len() == 0 {
        Seq::empty()
    } else if is_ascii_alnum(s.last()) {
        regex_escaped(s.drop_last()).push(s.last())
    } else {
        regex_escaped(s.drop_last()).push('\\').push(s.last())
    }
}

fn regex_escape(s: &str) -> (r: String)
    ensures
        r@ == regex_escaped(s@),
{
    let len = s.unicode_len();
    let mut out = String::new();
    let mut i: usize = 0;
    while i < len
        invariant
            i <= len,
            len == s@.len(),
            out@ =~= regex_escaped(s@.take(i as int)),
        decreases len - i,
    {
        let c = s.get_char(i);
        proof {
            assert(s@.take(i + 1).drop_last() =~= s@.take(i as int));
            assert(s@.take(i + 1).last() == s@[i as int]);
        }
        if ('a' <= c && c <= 'z') || ('A' <= c && c <= 'Z') || ('0' <= c && c <= '9') {
            crate::strutil::push_char(&mut out, c);
        } else {
            crate::strutil::push_char(&mut out, '\\');
            crate::strutil::push_char(&mut out, c);
        }
        i = i + 1;
    }
    proof {
        assert(s@.take(len as int) =~= s@);
    }
    out
}

/// The LIKE pattern that narrows the lookup: the prefix, the separator, and
/// a trailing wildcard.
pub open spec fn like_pattern_spec(prefix: Seq<char>, cfg: CodeGeneratorConfig) -> Seq<char> {
    prefix + cfg.separator@ + seq!['%']
}

/// The anchored pattern that pins the exact shape of a code: the escaped
/// prefix and separator followed by exactly `number_length` digits.
pub open spec fn code_regex_spec(prefix: Seq<char>, cfg: CodeGeneratorConfig) -> Seq<char> {
    seq!['^'] + regex_escaped(prefix) + regex_escaped(cfg.separator@) + "\\d{"@ + crate::strutil::dec_str(
        cfg.number_length as nat,
    ) + "}$"@
}

/// The SELECT that fetches the greatest existing code of a scope, with the
/// LIKE pattern and the regular expression bound as parameters.
pub open spec fn next_code_query_sql(cfg: CodeGeneratorConfig, scoped: bool) -> Seq<char> {
    if scoped {
        "SELECT "@ + cfg.code_column@ + " FROM "@ + cfg.table_name@ + " WHERE "@
            + cfg.workspace_column.unwrap()@ + " = $1 AND "@ + cfg.code_column@ + " LIKE $2 AND "@
            + cfg.code_column@ + " ~ $3 ORDER BY "@ + cfg.code_column@ + " DESC LIMIT 1"@
    } else {
        "SELECT "@ + cfg.code_column@ + " FROM "@ + cfg.table_name@ + " WHERE "@
            + cfg.code_column@ + " LIKE $1 AND "@ + cfg.code_column@
            + " ~ $2 ORDER BY "@ + cfg.code_column@ + " DESC LIMIT 1"@
    }
}

/// The SELECT that re-verifies a candidate code by direct equality.
pub open spec fn exists_query_sql(cfg: CodeGeneratorConfig, scoped: bool) -> Seq<char> {
    if scoped {
        "SELECT 1 FROM "@ + cfg.table_name@ + " WHERE "@ + cfg.workspace_column.unwrap()@
            + " = $1 AND "@ + cfg.code_column@ + " = $2 LIMIT 1"@
    } else {
        "SELECT 1 FROM "@ + cfg.table_name@ + " WHERE "@ + cfg.code_column@ + " = $1 LIMIT 1"@
    }
}

impl CodeGenerator {
    /// The lookup query of a scope together with its two bound patterns, in
    /// placeholder order after the workspace id (when the scope has one).
    /// Rejects a workspace id given to a tenant-independent scope and the
    /// reverse.
    pub fn build_query(
        &self,
        config: &CodeGeneratorConfig,
        prefix: &str,
        has_workspace_id: bool,
    ) -> (r: Result<(String, Vec<String>), CodeError>)
        requires
            config.wf(),
        ensures
            match r {
                Ok(q) => {
                    &&& has_workspace_id == (config.workspace_column matches Some(_))
                    &&& q.0@ == next_code_query_sql(*config, has_workspace_id)
                    &&& q.1@.len() == 2
                    &&& q.1@[0]@ == like_pattern_spec(prefix@, *config)
                    &&& q.1@[1]@ == code_regex_spec(prefix@, *config)
                },
                Err(e) => e == CodeError::ConfigMismatch && has_workspace_id != (
                config.workspace_column matches Some(_)),
            },
    {
        let scoped = match &config.workspace_column {
            Some(_) => true,
            None => false,
        };
        if scoped != has_workspace_id {
            return Err(CodeError::ConfigMismatch);
        }
        let mut sql = String::new();
        sql.append("SELECT ");
        sql.append(config.code_column.as_str());
        sql.append(" FROM ");
        sql.append(config.table_name.as_str());
        sql.append(" WHERE ");
        if scoped {
            match &config.workspace_column {
                Some(ws) => {
                    sql.append(ws.as_str());
                    sql.append(" = $1 AND ");
                },
                None => {
                    // Unreachable: `scoped` means the column is present.
                    proof {
                        assert(false);
                    }
                },
            }
            sql.append(config.code_column.as_str());
            sql.append(" LIKE $2 AND ");
            sql.append(config.code_column.as_str());
            sql.append(" ~ $3 ORDER BY ");
        } else {
            sql.append(config.code_column.as_str());
            sql.append(" LIKE $1 AND ");
            sql.append(config.code_column.as_str());
            sql.append(" ~ $2 ORDER BY ");
        }
        sql.append(config.code_column.as_str());
        sql.append(" DESC LIMIT 1");
        proof {
            assert(sql@ =~= next_code_query_sql(*config, has_workspace_id));
        }
        let like = prefix.to_owned().concat(config.separator.as_str()).concat("%");
        proof {
            reveal_strlit("%");
            assert(like@ =~= like_pattern_spec(prefix@, *config));
        }
        let mut regex = String::new();
        crate::strutil::push_char(&mut regex, '^');
        let escaped_prefix = regex_escape(prefix);
        regex.append(escaped_prefix.as_str());
        let escaped_sep = regex_escape(config.separator.as_str());
        regex.append(escaped_sep.as_str());
        regex.append("\\d{");
        let width = crate::strutil::dec_of_u64(config.number_length as u64);
        regex.append(width.as_str());
        regex.append("}$");
        proof {
            assert(regex@ =~= code_regex_spec(prefix@, *config));
        }
        let mut params: Vec<String> = Vec::new();
        params.push(like);
        params.push(regex);
        Ok((sql, params))
    }

    /// The direct-equality query of a scope; the candidate code is bound
    /// after the workspace id (when the scope has one).
    pub fn build_exists_query(&self, config: &CodeGeneratorConfig, has_workspace_id: bool) -> (r:
        Result<String, CodeError>)
        ensures
            match r {
                Ok(sql) => has_workspace_id == (config.workspace_column matches Some(_)) && sql@
                    == exists_query_sql(*config, has_workspace_id),
                Err(e) => e == CodeError::ConfigMismatch && has_workspace_id != (
                config.workspace_column matches Some(_)),
            },
    {
        let scoped = match &config.workspace_column {
            Some(_) => true,
            None => false,
        };
        if scoped != has_workspace_id {
            return Err(CodeError::ConfigMismatch);
        }
        let mut sql = String::new();
        sql.append("SELECT 1 FROM ");
        sql.append(config.table_name.as_str());
        sql.append(" WHERE ");
        if scoped {
            match &config.workspace_column {
                Some(ws) => {
                    sql.append(ws.as_str());
                    sql.append(" = $1 AND ");
                },
                None => {
                    // Unreachable: `scoped` means the column is present.
                    proof {
                        assert(false);
                    }
                },
            }
            sql.append(config.code_column.as_str());
            sql.append(" = $2 LIMIT 1");
        } else {
            sql.append(config.code_column.as_str());
            sql.append(" = $1 LIMIT 1");
        }
        proof {
            assert(sql@ =~= exists_query_sql(*config, has_workspace_id));
        }
        Ok(sql)
    }
}

} // verus!
