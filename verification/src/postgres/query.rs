//! A parameterized SQL statement as plain data: text pieces and bound values, in order. A
//! driver sends the text with a numbered placeholder (`$1`, `$2`, ...) in place of each bound
//! value; values are never written into the text.
//!
//! Its meaning is its token sequence: the characters of the text, with one `Param` token where
//! each value is bound. Two statements with the same tokens are the same statement, however
//! their text was pieced together.

use vstd::prelude::*;
use vstd::string::*;
use crate::postgres::token::{ArgView, SqlArg, SqlPart, SqlToken};

verus! {

/// The token of one character of SQL text.
pub open spec fn char_token(c: char) -> SqlToken {
    SqlToken::Char(c)
}

/// The tokens of a piece of SQL text: one per character.
pub open spec fn text_tokens(s: Seq<char>) -> Seq<SqlToken>
    decreases s.len(),
{
    if s.len() == 0 {
        Seq::empty()
    } else {
        text_tokens(s.drop_last()).push(char_token(s.last()))
    }
}

/// The single token of a bound value.
pub open spec fn param(a: ArgView) -> Seq<SqlToken> {
    seq![SqlToken::Param(a)]
}

/// The tokens of a piece.
pub open spec fn part_tokens(p: SqlPart) -> Seq<SqlToken> {
    match p {
        SqlPart::Text(s) => text_tokens(s@),
        SqlPart::Bind(a) => param(a@),
    }
}

/// The tokens of a sequence of pieces.
pub open spec fn parts_tokens(ps: Seq<SqlPart>) -> Seq<SqlToken>
    decreases ps.len(),
{
    if ps.len() == 0 {
        Seq::empty()
    } else {
        parts_tokens(ps.drop_last()) + part_tokens(ps.last())
    }
}

/// The tokens of SQL text pieces concatenated.
pub proof fn lemma_text_tokens_concat(a: Seq<char>, b: Seq<char>)
    ensures
        text_tokens(a + b) == text_tokens(a) + text_tokens(b),
    decreases b.len(),
{
    if b.len() == 0 {
        assert(a + b =~= a);
        assert(text_tokens(a) + text_tokens(b) =~= text_tokens(a));
    } else {
        let bl = b.drop_last();
        let c = char_token(b.last());
        lemma_text_tokens_concat(a, bl);
        assert((a + b).drop_last() =~= a + bl);
        assert((a + b).last() == b.last());

        assert((text_tokens(a) + text_tokens(bl)).push(c) =~= text_tokens(a) + text_tokens(bl).push(c));
    }
}

/// A parameterized SQL statement under construction.
#[derive(Debug)]
pub struct SqlQuery {
    /// The pieces, in order.
    pub parts: Vec<SqlPart>,
}

impl SqlQuery {
    /// The statement's meaning: its tokens.
    pub open spec fn tokens(self) -> Seq<SqlToken> {
        parts_tokens(self.parts@)
    }

    /// A statement that starts with the given text.
    pub fn new(s: &str) -> (q: SqlQuery)
        ensures
            q.tokens() == text_tokens(s@),
    {
        let mut q = SqlQuery { parts: Vec::new() };
        q.push(s);
        proof {
            assert(Seq::<SqlToken>::empty() + text_tokens(s@) =~= text_tokens(s@));
        }
        q
    }

    /// Append SQL text.
    pub fn push(&mut self, s: &str)
        ensures
            final(self).tokens() == old(self).tokens() + text_tokens(s@),
    {
        let ghost before = self.parts@;
        self.parts.push(SqlPart::Text(String::from_str(s)));
        proof {
            assert(self.parts@.drop_last() =~= before);
        }
    }

    /// Bind a value as the next parameter.
    pub fn push_bind(&mut self, a: SqlArg)
        ensures
            final(self).tokens() == old(self).tokens() + param(a@),
    {
        let ghost before = self.parts@;
        self.parts.push(SqlPart::Bind(a));
        proof {
            assert(self.parts@.drop_last() =~= before);
        }
    }
}


/// What a token shows of a statement's SQL text: its character, or a placeholder where a value
/// is bound.
pub open spec fn text_mark(t: SqlToken) -> Option<char> {
    match t {
        SqlToken::Char(c) => Some(c),
        SqlToken::Param(_) => None,
    }
}

/// The SQL text of tokens, with each bound value as a placeholder: what the database parses.
pub open spec fn skeleton(ts: Seq<SqlToken>) -> Seq<Option<char>> {
    ts.map_values(|t: SqlToken| text_mark(t))
}

/// The skeleton of joined tokens is the skeletons joined.
pub proof fn lemma_skeleton_concat(a: Seq<SqlToken>, b: Seq<SqlToken>)
    ensures
        skeleton(a + b) == skeleton(a) + skeleton(b),
{
    assert(skeleton(a + b) =~= skeleton(a) + skeleton(b));
}

/// Every bound value shows as the same placeholder.
pub proof fn lemma_skeleton_param(x: ArgView, y: ArgView)
    ensures
        skeleton(param(x)) == skeleton(param(y)),
{
    assert(skeleton(param(x)) =~= skeleton(param(y)));
}

/// The number of placeholders among marks.
pub open spec fn placeholder_count(marks: Seq<Option<char>>) -> nat
    decreases marks.len(),
{
    if marks.len() == 0 {
        0
    } else {
        placeholder_count(marks.drop_last()) + if marks.last() is None {
            1nat
        } else {
            0nat
        }
    }
}

/// The SQL text of marks, the placeholders written `$n` and numbered after the first `k`.
pub open spec fn numbered_from(marks: Seq<Option<char>>, k: nat) -> Seq<char>
    decreases marks.len(),
{
    if marks.len() == 0 {
        Seq::empty()
    } else {
        numbered_from(marks.drop_last(), k) + match marks.last() {
            Some(c) => seq![c],
            None => seq!['$'] + decimal(k + placeholder_count(marks.drop_last()) + 1),
        }
    }
}

/// The SQL text of a statement's tokens: its text, each bound value written as its placeholder
/// `$1`, `$2`, ... in order.
pub open spec fn sql_text(ts: Seq<SqlToken>) -> Seq<char> {
    numbered_from(skeleton(ts), 0)
}

/// The values bound by tokens, in order.
pub open spec fn params_of(ts: Seq<SqlToken>) -> Seq<ArgView>
    decreases ts.len(),
{
    if ts.len() == 0 {
        Seq::empty()
    } else {
        params_of(ts.drop_last()) + match ts.last() {
            SqlToken::Param(a) => seq![a],
            SqlToken::Char(_) => Seq::empty(),
        }
    }
}

proof fn lemma_placeholder_count_concat(a: Seq<Option<char>>, b: Seq<Option<char>>)
    ensures
        placeholder_count(a + b) == placeholder_count(a) + placeholder_count(b),
    decreases b.len(),
{
    if b.len() == 0 {
        assert(a + b =~= a);
    } else {
        lemma_placeholder_count_concat(a, b.drop_last());
        assert((a + b).drop_last() =~= a + b.drop_last());
    }
}

proof fn lemma_numbered_concat(a: Seq<Option<char>>, b: Seq<Option<char>>, k: nat)
    ensures
        numbered_from(a + b, k) == numbered_from(a, k) + numbered_from(b, k + placeholder_count(a)),
    decreases b.len(),
{
    if b.len() == 0 {
        assert(a + b =~= a);
        assert(numbered_from(a, k) + numbered_from(b, k + placeholder_count(a)) =~= numbered_from(a, k));
    } else {
        lemma_numbered_concat(a, b.drop_last(), k);
        assert((a + b).drop_last() =~= a + b.drop_last());
        assert((a + b).last() == b.last());
        lemma_placeholder_count_concat(a, b.drop_last());
        let tail: Seq<char> = match b.last() {
            Some(c) => seq![c],
            None => seq!['$'] + decimal(k + placeholder_count(a) + placeholder_count(b.drop_last()) + 1),
        };
        assert(numbered_from(a, k) + numbered_from(b.drop_last(), k + placeholder_count(a)) + tail
            =~= numbered_from(a, k) + (numbered_from(b.drop_last(), k + placeholder_count(a)) + tail));
    }
}

proof fn lemma_text_marks(t: Seq<char>, k: nat)
    ensures
        numbered_from(skeleton(text_tokens(t)), k) == t,
        placeholder_count(skeleton(text_tokens(t))) == 0,
        params_of(text_tokens(t)) == Seq::<ArgView>::empty(),
    decreases t.len(),
{
    if t.len() > 0 {
        lemma_text_marks(t.drop_last(), k);
        let ts = text_tokens(t);
        assert(ts == text_tokens(t.drop_last()).push(char_token(t.last())));
        assert(ts.drop_last() =~= text_tokens(t.drop_last()));
        assert(skeleton(ts).drop_last() =~= skeleton(text_tokens(t.drop_last())));
        assert(skeleton(ts).last() == Some(t.last()));
        assert(t =~= t.drop_last().push(t.last()));
    }
}

proof fn lemma_params_concat(a: Seq<SqlToken>, b: Seq<SqlToken>)
    ensures
        params_of(a + b) == params_of(a) + params_of(b),
    decreases b.len(),
{
    if b.len() == 0 {
        assert(a + b =~= a);
        assert(params_of(a) + params_of(b) =~= params_of(a));
    } else {
        lemma_params_concat(a, b.drop_last());
        assert((a + b).drop_last() =~= a + b.drop_last());
        let tail: Seq<ArgView> = match b.last() {
            SqlToken::Param(x) => seq![x],
            SqlToken::Char(_) => Seq::empty(),
        };
        assert(params_of(a) + params_of(b.drop_last()) + tail =~= params_of(a) + (params_of(b.drop_last()) + tail));
    }
}

/// Plain SQL text binds nothing and reads as itself.
pub proof fn lemma_plain_sql(t: Seq<char>)
    ensures
        sql_text(text_tokens(t)) == t,
        params_of(text_tokens(t)) == Seq::<ArgView>::empty(),
{
    lemma_text_marks(t, 0);
}

/// Text, one bound value, then text: it reads as the two texts with `$1` between them, and binds
/// that one value.
pub proof fn lemma_one_param_sql(pre: Seq<char>, a: ArgView, post: Seq<char>)
    ensures
        sql_text(text_tokens(pre) + param(a) + text_tokens(post)) == pre + "$1"@ + post,
        params_of(text_tokens(pre) + param(a) + text_tokens(post)) == seq![a],
{
    let x = text_tokens(pre);
    let y = param(a);
    let z = text_tokens(post);
    lemma_skeleton_concat(x, y);
    lemma_skeleton_concat(x + y, z);
    lemma_text_marks(pre, 0);
    lemma_text_marks(post, 1);
    lemma_numbered_concat(skeleton(x), skeleton(y), 0);
    lemma_placeholder_count_concat(skeleton(x), skeleton(y));
    lemma_numbered_concat(skeleton(x) + skeleton(y), skeleton(z), 0);
    assert(skeleton(y) =~= seq![None::<char>]);
    assert(skeleton(y).drop_last() =~= Seq::<Option<char>>::empty());
    assert(digit_char(1) == '1');
    reveal_strlit("$1");
    assert(skeleton(y).last() is None);
    assert(numbered_from(skeleton(y).drop_last(), 0) == Seq::<char>::empty());
    assert(placeholder_count(skeleton(y).drop_last()) == 0);
    assert(decimal(1) == seq![digit_char(1)]);
    assert(numbered_from(skeleton(y), 0) =~= seq!['$'] + decimal(1));
    assert(numbered_from(skeleton(y), 0) =~= "$1"@);
    lemma_params_concat(x, y);
    lemma_params_concat(x + y, z);
    assert(y.drop_last() =~= Seq::<SqlToken>::empty());
    assert(params_of(y.drop_last()) == Seq::<ArgView>::empty());
    assert(y.last() == SqlToken::Param(a));
    assert(params_of(y) =~= seq![a]);
    assert(params_of(x + y + z) =~= seq![a]);
}

/// The rendered text of pieces is the SQL text of their tokens, and their bound values are the
/// values their tokens bind: how a statement was pieced together does not matter.
pub proof fn lemma_render_is_sql_text(ps: Seq<SqlPart>)
    ensures
        render(ps) == sql_text(parts_tokens(ps)),
        bind_count(ps) == placeholder_count(skeleton(parts_tokens(ps))),
        bound_values(ps) == params_of(parts_tokens(ps)),
    decreases ps.len(),
{
    if ps.len() > 0 {
        lemma_render_is_sql_text(ps.drop_last());
        let head = parts_tokens(ps.drop_last());
        let last = part_tokens(ps.last());
        lemma_skeleton_concat(head, last);
        lemma_numbered_concat(skeleton(head), skeleton(last), 0);
        lemma_placeholder_count_concat(skeleton(head), skeleton(last));
        lemma_params_concat(head, last);
        match ps.last() {
            SqlPart::Text(t) => {
                lemma_text_marks(t@, placeholder_count(skeleton(head)));
            },
            SqlPart::Bind(a) => {
                let k = placeholder_count(skeleton(head));
                let pa = param(a@);
                assert(pa.len() == 1);
                assert(pa.last() == SqlToken::Param(a@));
                assert(pa.drop_last() =~= Seq::<SqlToken>::empty());
                assert(params_of(pa.drop_last()) == Seq::<ArgView>::empty());
                assert(params_of(pa) =~= seq![a@]);
                let m = skeleton(pa);
                assert(m.last() == None::<char>);
                assert(m.drop_last() =~= Seq::<Option<char>>::empty());
                assert(numbered_from(m.drop_last(), k) == Seq::<char>::empty());
                assert(placeholder_count(m.drop_last()) == 0);
                assert(numbered_from(m, k) =~= seq!['$'] + decimal(k + 1));
            },
        }
    }
}

/// The decimal digits of a number.
pub open spec fn decimal(n: nat) -> Seq<char>
    decreases n,
{
    if n < 10 {
        seq![digit_char(n)]
    } else {
        decimal(n / 10).push(digit_char(n % 10))
    }
}

/// The character of a decimal digit.
pub open spec fn digit_char(d: nat) -> char {
    (48 + d) as char
}

/// The number of bound values among pieces.
pub open spec fn bind_count(ps: Seq<SqlPart>) -> nat
    decreases ps.len(),
{
    if ps.len() == 0 {
        0
    } else {
        bind_count(ps.drop_last()) + if ps.last() is Bind {
            1nat
        } else {
            0nat
        }
    }
}

/// The SQL text of pieces: the text pieces as they are, the `n`-th bound value as `$n`.
pub open spec fn render(ps: Seq<SqlPart>) -> Seq<char>
    decreases ps.len(),
{
    if ps.len() == 0 {
        Seq::empty()
    } else {
        render(ps.drop_last()) + match ps.last() {
            SqlPart::Text(t) => t@,
            SqlPart::Bind(_) => seq!['$'] + decimal(bind_count(ps.drop_last()) + 1),
        }
    }
}

/// The bound values of pieces, in order.
pub open spec fn bound_values(ps: Seq<SqlPart>) -> Seq<ArgView>
    decreases ps.len(),
{
    if ps.len() == 0 {
        Seq::empty()
    } else {
        bound_values(ps.drop_last()) + match ps.last() {
            SqlPart::Text(_) => Seq::empty(),
            SqlPart::Bind(a) => seq![a@],
        }
    }
}

/// The decimal text of a number.
pub fn decimal_text(n: u64) -> (r: String)
    ensures
        r@ == decimal(n as nat),
    decreases n,
{
    let d = n % 10;
    let c = ((48 + d) as u8) as char;
    if n < 10 {
        let mut r = String::new();
        crate::text::push_char(&mut r, c);
        proof {
            assert(r@ =~= decimal(n as nat));
        }
        r
    } else {
        let mut r = decimal_text(n / 10);
        crate::text::push_char(&mut r, c);
        r
    }
}

impl SqlQuery {
    /// The statement's SQL text, each bound value written as its placeholder `$1`, `$2`, ...
    pub fn sql(&self) -> (r: String)
        ensures
            r@ == render(self.parts@),
            r@ == sql_text(self.tokens()),
    {
        let mut r = String::new();
        let mut count: u64 = 0;
        let n = self.parts.len();
        let mut i: usize = 0;
        while i < n
            invariant
                n == self.parts@.len(),
                i <= n,
                count == bind_count(self.parts@.take(i as int)),
                count <= i,
                r@ == render(self.parts@.take(i as int)),
            decreases n - i,
        {
            proof {
                assert(self.parts@.take(i + 1).drop_last() =~= self.parts@.take(i as int));
            }
            match &self.parts[i] {
                SqlPart::Text(t) => {
                    r.append(t.as_str());
                },
                SqlPart::Bind(_) => {
                    count = count + 1;
                    crate::text::push_char(&mut r, '$');
                    let num = decimal_text(count);
                    r.append(num.as_str());
                },
            }
            i += 1;
            proof {
                assert(r@ =~= render(self.parts@.take(i as int)));
            }
        }
        proof {
            assert(self.parts@.take(n as int) =~= self.parts@);
            lemma_render_is_sql_text(self.parts@);
        }
        r
    }

    /// The bound values, in placeholder order.
    pub fn into_args(self) -> (r: Vec<SqlArg>)
        ensures
            r@.len() == params_of(self.tokens()).len(),
            forall|j: int| 0 <= j < r@.len() ==> (#[trigger] r@[j])@ == params_of(self.tokens())[j],
    {
        proof {
            lemma_render_is_sql_text(self.parts@);
        }
        let ghost all = self.parts@;
        let total = self.parts.len();
        let mut rest = self.parts;
        let mut out: Vec<SqlArg> = Vec::new();
        let mut i: usize = 0;
        while rest.len() > 0
            invariant
                all.len() == total,
                i <= total,
                rest@ == all.subrange(i as int, total as int),
                out@.len() == bound_values(all.take(i as int)).len(),
                forall|j: int| 0 <= j < out@.len() ==> (#[trigger] out@[j])@ == bound_values(all.take(i as int))[j],
            decreases rest.len(),
        {
            let p = rest.remove(0);
            proof {
                assert(p == all[i as int]);
                assert(all.take(i + 1).drop_last() =~= all.take(i as int));
            }
            match p {
                SqlPart::Text(_) => {},
                SqlPart::Bind(a) => {
                    out.push(a);
                },
            }
            i += 1;
        }
        proof {
            assert(all.take(total as int) =~= all);
        }
        out
    }
}

} // verus!
