use vstd::prelude::*;
use crate::ast::{Expr, Loc, Ty};

verus! {

/// Why a message could not be read as a tree.
#[derive(Debug, Clone, Copy, PartialEq, Eq, Structural)]
pub enum MessageFormatError {
    /// The message ends inside a node.
    Truncated,
    /// A node tag that this schema does not know.
    UnsupportedVariant { tag: u64 },
    /// A field holds a value outside its range (a position over `u32`, a
    /// boolean other than 0 or 1).
    FieldOutOfRange,
    /// Words follow the root node.
    TrailingWords,
}

pub const TAG_INT: u64 = 0;
pub const TAG_BOOL: u64 = 1;
pub const TAG_VAR: u64 = 2;
pub const TAG_LAM: u64 = 3;
pub const TAG_APP: u64 = 4;
pub const TAG_LET: u64 = 5;
pub const TAG_ADD: u64 = 6;
pub const TAG_IF: u64 = 7;
pub const TAG_EFFECT: u64 = 8;
pub const TAG_ANNOT: u64 = 9;

/// The word that stands for an annotation's kind.
pub open spec fn ty_word(t: Ty) -> u64 {
    match t {
        Ty::Int => 0,
        Ty::Bool => 1,
        Ty::Fun => 2,
    }
}

/// The kind a word stands for; words above 2 stand for none.
pub open spec fn word_ty(w: u64) -> Ty {
    if w == 0 {
        Ty::Int
    } else if w == 1 {
        Ty::Bool
    } else {
        Ty::Fun
    }
}

/// Number of words before a node's payload: the tag and four positions.
pub const HEADER_WORDS: usize = 5;

/// A node's header: its tag followed by its location.
pub open spec fn header(tag: u64, loc: Loc) -> Seq<u64> {
    seq![tag, loc.start_line as u64, loc.start_column as u64, loc.end_line as u64, loc.end_column as u64]
}

/// The words of a tree: the node's header, its scalar field if it has one,
/// then its children in order.
pub open spec fn enc(e: Expr) -> Seq<u64>
    decreases e,
{
    match e {
        Expr::Int { value, loc } => header(TAG_INT, loc).push(value),
        Expr::Bool { value, loc } => header(TAG_BOOL, loc).push(if value { 1 } else { 0 }),
        Expr::Var { index, loc } => header(TAG_VAR, loc).push(index),
        Expr::Lam { body, loc } => header(TAG_LAM, loc) + enc(*body),
        Expr::App { func, arg, loc } => header(TAG_APP, loc) + enc(*func) + enc(*arg),
        Expr::Let { bound, body, loc } => header(TAG_LET, loc) + enc(*bound) + enc(*body),
        Expr::Add { left, right, loc } => header(TAG_ADD, loc) + enc(*left) + enc(*right),
        Expr::If { cond, then_branch, else_branch, loc } => header(TAG_IF, loc) + enc(*cond) + enc(
            *then_branch,
        ) + enc(*else_branch),
        Expr::Effect { prim, arg, loc } => header(TAG_EFFECT, loc).push(prim) + enc(*arg),
        Expr::Annot { expr, ty, loc } => header(TAG_ANNOT, loc).push(ty_word(ty)) + enc(*expr),
    }
}

/// The location held in words 1 to 4, if each fits in `u32`.
pub open spec fn parse_loc(s: Seq<u64>) -> Option<Loc>
    recommends
        s.len() >= 5,
{
    if s[1] <= u32::MAX && s[2] <= u32::MAX && s[3] <= u32::MAX && s[4] <= u32::MAX {
        Some(
            Loc {
                start_line: s[1] as u32,
                start_column: s[2] as u32,
                end_line: s[3] as u32,
                end_column: s[4] as u32,
            },
        )
    } else {
        None
    }
}

/// Reads one tree from the front of `s`: the tree and the number of words it
/// took, or the first fault met in reading order.
#[verifier::opaque]
pub open spec fn parse(s: Seq<u64>) -> Result<(Expr, nat), MessageFormatError>
    decreases s.len(),
{
    if s.len() < 5 {
        Err(MessageFormatError::Truncated)
    } else if s[0] > TAG_ANNOT {
        Err(MessageFormatError::UnsupportedVariant { tag: s[0] })
    } else if parse_loc(s) is None {
        Err(MessageFormatError::FieldOutOfRange)
    } else {
        let loc = parse_loc(s)->Some_0;
        let tag = s[0];
        if tag == TAG_INT || tag == TAG_BOOL || tag == TAG_VAR {
            if s.len() < 6 {
                Err(MessageFormatError::Truncated)
            } else if tag == TAG_INT {
                Ok((Expr::Int { value: s[5], loc }, 6))
            } else if tag == TAG_BOOL {
                if s[5] > 1 {
                    Err(MessageFormatError::FieldOutOfRange)
                } else {
                    Ok((Expr::Bool { value: s[5] == 1, loc }, 6))
                }
            } else {
                Ok((Expr::Var { index: s[5], loc }, 6))
            }
        } else if tag == TAG_LAM {
            match parse(s.skip(5)) {
                Err(x) => Err(x),
                Ok((b, n)) => Ok((Expr::Lam { body: Box::new(b), loc }, 5 + n)),
            }
        } else if tag == TAG_EFFECT {
            if s.len() < 6 {
                Err(MessageFormatError::Truncated)
            } else {
                match parse(s.skip(6)) {
                    Err(x) => Err(x),
                    Ok((a, n)) => Ok((Expr::Effect { prim: s[5], arg: Box::new(a), loc }, 6 + n)),
                }
            }
        } else if tag == TAG_ANNOT {
            if s.len() < 6 {
                Err(MessageFormatError::Truncated)
            } else if s[5] > 2 {
                Err(MessageFormatError::FieldOutOfRange)
            } else {
                match parse(s.skip(6)) {
                    Err(x) => Err(x),
                    Ok((a, n)) => Ok((Expr::Annot { expr: Box::new(a), ty: word_ty(s[5]), loc }, 6 + n)),
                }
            }
        } else {
            match parse(s.skip(5)) {
                Err(x) => Err(x),
                Ok((a, n)) => if 5 + n > s.len() {
                    Err(MessageFormatError::Truncated)
                } else {
                    match parse(s.skip((5 + n) as int)) {
                        Err(x) => Err(x),
                        Ok((b, m)) => if tag == TAG_APP {
                            Ok((Expr::App { func: Box::new(a), arg: Box::new(b), loc }, 5 + n + m))
                        } else if tag == TAG_LET {
                            Ok((Expr::Let { bound: Box::new(a), body: Box::new(b), loc }, 5 + n + m))
                        } else if tag == TAG_ADD {
                            Ok((Expr::Add { left: Box::new(a), right: Box::new(b), loc }, 5 + n + m))
                        } else if 5 + n + m > s.len() {
                            Err(MessageFormatError::Truncated)
                        } else {
                            match parse(s.skip((5 + n + m) as int)) {
                                Err(x) => Err(x),
                                Ok((c, k)) => Ok((
                                    Expr::If {
                                        cond: Box::new(a),
                                        then_branch: Box::new(b),
                                        else_branch: Box::new(c),
                                        loc,
                                    },
                                    5 + n + m + k,
                                )),
                            }
                        },
                    }
                },
            }
        }
    }
}

/// What reading a whole message gives: its one tree, with no word left over.
pub open spec fn decode(s: Seq<u64>) -> Result<Expr, MessageFormatError> {
    match parse(s) {
        Err(x) => Err(x),
        Ok((e, n)) => if n == s.len() {
            Ok(e)
        } else {
            Err(MessageFormatError::TrailingWords)
        },
    }
}

/// The location of a header reads back as written.
proof fn lemma_parse_loc(loc: Loc, tag: u64, tail: Seq<u64>)
    ensures
        parse_loc(header(tag, loc) + tail) == Some(loc),
        (header(tag, loc) + tail).len() >= 5,
        (header(tag, loc) + tail)[0] == tag,
        (header(tag, loc) + tail).skip(5) == tail,
{
    let s = header(tag, loc) + tail;
    assert(s[1] == loc.start_line as u64);
    assert(s[2] == loc.start_column as u64);
    assert(s[3] == loc.end_line as u64);
    assert(s[4] == loc.end_column as u64);
    assert(s.skip(5) =~= tail);
}

spec fn parsed(e: Expr, rest: Seq<u64>) -> bool {
    parse(enc(e) + rest) == Ok::<(Expr, nat), MessageFormatError>((e, enc(e).len()))
}

proof fn lemma_leaf(e: Expr, rest: Seq<u64>)
    requires
        e is Int || e is Bool || e is Var,
    ensures
        parsed(e, rest),
{
    reveal(parse);
    let s = enc(e) + rest;
    let w: u64 = match e {
        Expr::Int { value, .. } => value,
        Expr::Bool { value, .. } => if value { 1 } else { 0 },
        Expr::Var { index, .. } => index,
        _ => 0,
    };
    let tag: u64 = if e is Int { TAG_INT } else if e is Bool { TAG_BOOL } else { TAG_VAR };
    lemma_parse_loc(e.loc_spec(), tag, seq![w] + rest);
    assert(s =~= header(tag, e.loc_spec()) + (seq![w] + rest));
}

proof fn lemma_lam(e: Expr, rest: Seq<u64>)
    requires
        e is Lam,
        parsed(*e->Lam_body, rest),
    ensures
        parsed(e, rest),
{
    reveal(parse);
    let s = enc(e) + rest;
    let loc = e.loc_spec();
    lemma_parse_loc(loc, TAG_LAM, enc(*e->Lam_body) + rest);
    assert(s =~= header(TAG_LAM, loc) + (enc(*e->Lam_body) + rest));
}

proof fn lemma_effect(e: Expr, rest: Seq<u64>)
    requires
        e is Effect,
        parsed(*e->Effect_arg, rest),
    ensures
        parsed(e, rest),
{
    reveal(parse);
    let s = enc(e) + rest;
    let loc = e.loc_spec();
    let arg = *e->Effect_arg;
    lemma_parse_loc(loc, TAG_EFFECT, seq![e->prim] + enc(arg) + rest);
    assert(s =~= header(TAG_EFFECT, loc) + (seq![e->prim] + enc(arg) + rest));
    assert(s.skip(6) =~= enc(arg) + rest);
}

proof fn lemma_annot(e: Expr, rest: Seq<u64>)
    requires
        e is Annot,
        parsed(*e->Annot_expr, rest),
    ensures
        parsed(e, rest),
{
    reveal(parse);
    let s = enc(e) + rest;
    let loc = e.loc_spec();
    let inner = *e->Annot_expr;
    let w = ty_word(e->ty);
    lemma_parse_loc(loc, TAG_ANNOT, seq![w] + enc(inner) + rest);
    assert(s =~= header(TAG_ANNOT, loc) + (seq![w] + enc(inner) + rest));
    assert(s.skip(6) =~= enc(inner) + rest);
}

#[verifier::rlimit(50)]
proof fn lemma_two(tag: u64, loc: Loc, a: Expr, b: Expr, rest: Seq<u64>)
    requires
        tag == TAG_APP || tag == TAG_LET || tag == TAG_ADD,
        parsed(a, enc(b) + rest),
        parsed(b, rest),
    ensures
        ({
            let s = header(tag, loc) + enc(a) + enc(b) + rest;
            let n = enc(a).len() + enc(b).len();
            let r = parse(s);
            &&& tag == TAG_APP ==> r == Ok::<(Expr, nat), MessageFormatError>((Expr::App { func: Box::new(a), arg: Box::new(b), loc }, 5 + n))
            &&& tag == TAG_LET ==> r == Ok::<(Expr, nat), MessageFormatError>((Expr::Let { bound: Box::new(a), body: Box::new(b), loc }, 5 + n))
            &&& tag == TAG_ADD ==> r == Ok::<(Expr, nat), MessageFormatError>((Expr::Add { left: Box::new(a), right: Box::new(b), loc }, 5 + n))
        }),
{
    reveal(parse);
    let s = header(tag, loc) + enc(a) + enc(b) + rest;
    let t = enc(a) + enc(b) + rest;
    lemma_parse_loc(loc, tag, t);
    assert(s =~= header(tag, loc) + t);
    assert(t =~= enc(a) + (enc(b) + rest));
    assert(s.skip((5 + enc(a).len()) as int) =~= enc(b) + rest);
}

#[verifier::rlimit(50)]
proof fn lemma_if(e: Expr, rest: Seq<u64>)
    requires
        e is If,
        parsed(*e->cond, enc(*e->then_branch) + enc(*e->else_branch) + rest),
        parsed(*e->then_branch, enc(*e->else_branch) + rest),
        parsed(*e->else_branch, rest),
    ensures
        parsed(e, rest),
{
    reveal(parse);
    let (a, b, c) = (*e->cond, *e->then_branch, *e->else_branch);
    let loc = e.loc_spec();
    let s = enc(e) + rest;
    let t = enc(a) + enc(b) + enc(c) + rest;
    lemma_parse_loc(loc, TAG_IF, t);
    assert(s =~= header(TAG_IF, loc) + t);
    assert(t =~= enc(a) + (enc(b) + enc(c) + rest));
    let n = enc(a).len();
    assert(s.skip((5 + n) as int) =~= enc(b) + (enc(c) + rest));
    assert(enc(b) + (enc(c) + rest) =~= enc(b) + enc(c) + rest);
    let m = enc(b).len();
    assert(s.skip((5 + n + m) as int) =~= enc(c) + rest);
}

/// Reading the words of a tree, whatever follows them, gives back that tree
/// and the number of its words.
pub proof fn lemma_parse_enc(e: Expr, rest: Seq<u64>)
    ensures
        parse(enc(e) + rest) == Ok::<(Expr, nat), MessageFormatError>((e, enc(e).len())),
    decreases e,
{
    match e {
        Expr::Int { .. } | Expr::Bool { .. } | Expr::Var { .. } => lemma_leaf(e, rest),
        Expr::Lam { body, .. } => {
            lemma_parse_enc(*body, rest);
            lemma_lam(e, rest);
        },
        Expr::Effect { arg, .. } => {
            lemma_parse_enc(*arg, rest);
            lemma_effect(e, rest);
        },
        Expr::Annot { expr, .. } => {
            lemma_parse_enc(*expr, rest);
            lemma_annot(e, rest);
        },
        Expr::App { func: a, arg: b, loc } => {
            lemma_parse_enc(*a, enc(*b) + rest);
            lemma_parse_enc(*b, rest);
            lemma_two(TAG_APP, loc, *a, *b, rest);
            assert(enc(e) + rest == header(TAG_APP, loc) + enc(*a) + enc(*b) + rest);
        },
        Expr::Let { bound: a, body: b, loc } => {
            lemma_parse_enc(*a, enc(*b) + rest);
            lemma_parse_enc(*b, rest);
            lemma_two(TAG_LET, loc, *a, *b, rest);
            assert(enc(e) + rest == header(TAG_LET, loc) + enc(*a) + enc(*b) + rest);
        },
        Expr::Add { left: a, right: b, loc } => {
            lemma_parse_enc(*a, enc(*b) + rest);
            lemma_parse_enc(*b, rest);
            lemma_two(TAG_ADD, loc, *a, *b, rest);
            assert(enc(e) + rest == header(TAG_ADD, loc) + enc(*a) + enc(*b) + rest);
        },
        Expr::If { cond: a, then_branch: b, else_branch: c, .. } => {
            lemma_parse_enc(*a, enc(*b) + enc(*c) + rest);
            lemma_parse_enc(*b, enc(*c) + rest);
            lemma_parse_enc(*c, rest);
            lemma_if(e, rest);
        },
    }
}

/// Decoding the words of a tree gives the tree back.
pub proof fn lemma_round_trip(e: Expr)
    ensures
        decode(enc(e)) == Ok::<Expr, MessageFormatError>(e),
{
    lemma_parse_enc(e, Seq::empty());
    assert(enc(e) + Seq::<u64>::empty() =~= enc(e));
}

fn push_header(out: &mut Vec<u64>, tag: u64, loc: Loc)
    ensures
        final(out)@ == old(out)@ + header(tag, loc),
{
    out.push(tag);
    out.push(loc.start_line as u64);
    out.push(loc.start_column as u64);
    out.push(loc.end_line as u64);
    out.push(loc.end_column as u64);
    assert(final(out)@ =~= old(out)@ + header(tag, loc));
}

/// Appends the words of `e` to `out`.
pub fn encode_into(e: &Expr, out: &mut Vec<u64>)
    ensures
        final(out)@ == old(out)@ + enc(*e),
    decreases e,
{
    let ghost start = out@;
    match e {
        Expr::Int { value, loc } => {
            push_header(out, TAG_INT, *loc);
            out.push(*value);
        },
        Expr::Bool { value, loc } => {
            push_header(out, TAG_BOOL, *loc);
            out.push(if *value { 1 } else { 0 });
        },
        Expr::Var { index, loc } => {
            push_header(out, TAG_VAR, *loc);
            out.push(*index);
        },
        Expr::Lam { body, loc } => {
            push_header(out, TAG_LAM, *loc);
            encode_into(body, out);
        },
        Expr::App { func, arg, loc } => {
            push_header(out, TAG_APP, *loc);
            encode_into(func, out);
            encode_into(arg, out);
        },
        Expr::Let { bound, body, loc } => {
            push_header(out, TAG_LET, *loc);
            encode_into(bound, out);
            encode_into(body, out);
        },
        Expr::Add { left, right, loc } => {
            push_header(out, TAG_ADD, *loc);
            encode_into(left, out);
            encode_into(right, out);
        },
        Expr::If { cond, then_branch, else_branch, loc } => {
            push_header(out, TAG_IF, *loc);
            encode_into(cond, out);
            encode_into(then_branch, out);
            encode_into(else_branch, out);
        },
        Expr::Effect { prim, arg, loc } => {
            push_header(out, TAG_EFFECT, *loc);
            out.push(*prim);
            encode_into(arg, out);
        },
        Expr::Annot { expr, ty, loc } => {
            push_header(out, TAG_ANNOT, *loc);
            let w: u64 = match ty {
                Ty::Int => 0,
                Ty::Bool => 1,
                Ty::Fun => 2,
            };
            out.push(w);
            encode_into(expr, out);
        },
    }
    assert(out@ =~= start + enc(*e));
}

/// The message holding the tree `e`.
pub fn serialize_ast(e: &Expr) -> (r: Vec<u64>)
    ensures
        r@ == enc(*e),
{
    let mut out: Vec<u64> = Vec::new();
    encode_into(e, &mut out);
    assert(out@ =~= enc(*e));
    out
}

/// What reading a tree at word `pos` of `s` gives, with the position after it.
pub open spec fn parse_at(s: Seq<u64>, pos: int) -> Result<(Expr, int), MessageFormatError> {
    match parse(s.skip(pos)) {
        Err(x) => Err(x),
        Ok((e, n)) => Ok((e, pos + n)),
    }
}

/// Reads one tree starting at word `pos`, giving the tree and the position
/// of the first word after it.
#[verifier::rlimit(60)]
pub fn decode_at(words: &Vec<u64>, pos: usize) -> (r: Result<(Expr, usize), MessageFormatError>)
    requires
        pos <= words.len(),
    ensures
        match r {
            Ok((e, p)) => parse_at(words@, pos as int) == Ok::<(Expr, int), MessageFormatError>((e, p as int))
                && pos < p <= words.len(),
            Err(x) => parse_at(words@, pos as int) == Err::<(Expr, int), MessageFormatError>(x),
        },
    decreases words.len() - pos,
{
    let ghost s = words@.skip(pos as int);
    proof {
        reveal(parse);
    }
    if words.len() - pos < HEADER_WORDS {
        return Err(MessageFormatError::Truncated);
    }
    let tag = words[pos];
    if tag > TAG_ANNOT {
        return Err(MessageFormatError::UnsupportedVariant { tag });
    }
    let w1 = words[pos + 1];
    let w2 = words[pos + 2];
    let w3 = words[pos + 3];
    let w4 = words[pos + 4];
    if w1 > u32::MAX as u64 || w2 > u32::MAX as u64 || w3 > u32::MAX as u64 || w4 > u32::MAX as u64 {
        return Err(MessageFormatError::FieldOutOfRange);
    }
    let loc = Loc {
        start_line: w1 as u32,
        start_column: w2 as u32,
        end_line: w3 as u32,
        end_column: w4 as u32,
    };
    assert(parse_loc(s) == Some(loc));
    if tag == TAG_INT || tag == TAG_BOOL || tag == TAG_VAR {
        if words.len() - pos < 6 {
            return Err(MessageFormatError::Truncated);
        }
        let w = words[pos + 5];
        if tag == TAG_INT {
            Ok((Expr::Int { value: w, loc }, pos + 6))
        } else if tag == TAG_BOOL {
            if w > 1 {
                Err(MessageFormatError::FieldOutOfRange)
            } else {
                Ok((Expr::Bool { value: w == 1, loc }, pos + 6))
            }
        } else {
            Ok((Expr::Var { index: w, loc }, pos + 6))
        }
    } else if tag == TAG_LAM {
        assert(s.skip(5) =~= words@.skip(pos + 5));
        match decode_at(words, pos + 5) {
            Err(x) => Err(x),
            Ok((b, p)) => Ok((Expr::Lam { body: Box::new(b), loc }, p)),
        }
    } else if tag == TAG_EFFECT {
        if words.len() - pos < 6 {
            return Err(MessageFormatError::Truncated);
        }
        let prim = words[pos + 5];
        assert(s.skip(6) =~= words@.skip(pos + 6));
        match decode_at(words, pos + 6) {
            Err(x) => Err(x),
            Ok((a, p)) => Ok((Expr::Effect { prim, arg: Box::new(a), loc }, p)),
        }
    } else if tag == TAG_ANNOT {
        if words.len() - pos < 6 {
            return Err(MessageFormatError::Truncated);
        }
        let w = words[pos + 5];
        let ty = if w == 0 {
            Ty::Int
        } else if w == 1 {
            Ty::Bool
        } else if w == 2 {
            Ty::Fun
        } else {
            return Err(MessageFormatError::FieldOutOfRange);
        };
        assert(s.skip(6) =~= words@.skip(pos + 6));
        match decode_at(words, pos + 6) {
            Err(x) => Err(x),
            Ok((a, p)) => Ok((Expr::Annot { expr: Box::new(a), ty, loc }, p)),
        }
    } else {
        assert(s.skip(5) =~= words@.skip(pos + 5));
        match decode_at(words, pos + 5) {
            Err(x) => Err(x),
            Ok((a, p)) => {
                assert(s.skip(p - pos) =~= words@.skip(p as int));
                match decode_at(words, p) {
                    Err(x) => Err(x),
                    Ok((b, q)) => {
                        if tag == TAG_APP {
                            Ok((Expr::App { func: Box::new(a), arg: Box::new(b), loc }, q))
                        } else if tag == TAG_LET {
                            Ok((Expr::Let { bound: Box::new(a), body: Box::new(b), loc }, q))
                        } else if tag == TAG_ADD {
                            Ok((Expr::Add { left: Box::new(a), right: Box::new(b), loc }, q))
                        } else {
                            assert(s.skip(q - pos) =~= words@.skip(q as int));
                            match decode_at(words, q) {
                                Err(x) => Err(x),
                                Ok((c, k)) => Ok((
                                    Expr::If {
                                        cond: Box::new(a),
                                        then_branch: Box::new(b),
                                        else_branch: Box::new(c),
                                        loc,
                                    },
                                    k,
                                )),
                            }
                        }
                    },
                }
            },
        }
    }
}

/// Reads a whole message: exactly one tree, with no word after it.
pub fn deserialize_ast(words: &Vec<u64>) -> (r: Result<Expr, MessageFormatError>)
    ensures
        r == decode(words@),
{
    assert(words@.skip(0) =~= words@);
    match decode_at(words, 0) {
        Err(x) => Err(x),
        Ok((e, p)) => {
            if p == words.len() {
                Ok(e)
            } else {
                Err(MessageFormatError::TrailingWords)
            }
        },
    }
}

} // verus!
