//! What holds of every token stream: where it ends, what cutting it short does,
//! and that comments do not matter.

use crate::dxso::ir::{DxsoError, ProgramView, SrcOperand};
use crate::dxso::opcode::Opcode;
use crate::dxso::parser::{
    comment_field, dst_part, fresh_state, header_of, instruction_at, item_at, opcode_field,
    operand_run, operand_tokens, parsed, parsed_from, predicate_part, reg_kind, reg_type_field,
    src_at, srcs_from, tokens_from, tokens_left, ItemView, ParseState,
};
use vstd::prelude::*;

verus! {

// ---------------------------------------------------------------------------
// Register types
// ---------------------------------------------------------------------------

/// A token names no register file exactly where its type number is 12, 13 or
/// past 19, and the error gives that number. Two tokens name the same file
/// exactly where their type numbers are the same.
pub proof fn register_types_are_told_apart(a: u32, b: u32)
    ensures
        reg_kind(reg_type_field(a)) is Err <==> {
            let full = reg_type_field(a);
            full == 12 || full == 13 || full >= 20
        },
        reg_kind(reg_type_field(a)) matches Err(e) ==> e == DxsoError::UnknownRegisterType(
            reg_type_field(a),
        ),
        reg_kind(reg_type_field(a)) is Ok && reg_kind(reg_type_field(b)) is Ok ==> (reg_kind(
            reg_type_field(a),
        ) == reg_kind(reg_type_field(b)) <==> reg_type_field(a) == reg_type_field(b)),
{
}

// ---------------------------------------------------------------------------
// The end marker
// ---------------------------------------------------------------------------

/// Whether a run of operand tokens that ends at `end` in `bc` still ends there
/// with `extra` behind the stream.
spec fn run_ends(bc: Seq<u32>, extra: Seq<u32>, end: int) -> bool {
    end < bc.len() || (end == bc.len() && (extra.len() == 0 || extra[0] & 0x8000_0000 == 0))
}

proof fn runs_that_stop_stay(bc: Seq<u32>, extra: Seq<u32>, pos: int)
    requires
        0 <= pos,
        run_ends(bc, extra, pos + operand_run(bc, pos)),
    ensures
        operand_run(bc + extra, pos) == operand_run(bc, pos),
    decreases bc.len() - pos,
{
    if pos < bc.len() {
        assert((bc + extra)[pos] == bc[pos]);
        if bc[pos] & 0x8000_0000 != 0 {
            runs_that_stop_stay(bc, extra, pos + 1);
        }
    } else if extra.len() > 0 {
        assert((bc + extra)[pos] == extra[0]);
    }
}

proof fn sources_that_parse_stay(bc: Seq<u32>, extra: Seq<u32>, pos: int, sm1: bool)
    requires
        0 <= pos,
        src_at(bc, pos, sm1) is Ok,
    ensures
        src_at(bc + extra, pos, sm1) == src_at(bc, pos, sm1),
{
    assert((bc + extra)[pos] == bc[pos]);
    if pos + 1 < bc.len() {
        assert((bc + extra)[pos + 1] == bc[pos + 1]);
    }
}

proof fn operand_lists_that_parse_stay(
    bc: Seq<u32>,
    extra: Seq<u32>,
    pos: int,
    remaining: nat,
    sm1: bool,
    acc: Seq<SrcOperand>,
)
    requires
        0 <= pos,
        srcs_from(bc, pos, remaining, sm1, acc) is Ok,
    ensures
        srcs_from(bc + extra, pos, remaining, sm1, acc) == srcs_from(bc, pos, remaining, sm1, acc),
    decreases remaining,
{
    if remaining > 0 {
        sources_that_parse_stay(bc, extra, pos, sm1);
        if let Ok((src, taken)) = src_at(bc, pos, sm1) {
            operand_lists_that_parse_stay(
                bc,
                extra,
                pos + taken,
                (remaining - taken) as nat,
                sm1,
                acc.push(src),
            );
        }
    }
}

proof fn instructions_that_parse_stay(
    bc: Seq<u32>,
    extra: Seq<u32>,
    pos: int,
    op: Opcode,
    major: u8,
)
    requires
        0 <= pos < bc.len(),
        instruction_at(bc, pos, op, major) is Ok,
        run_ends(bc, extra, pos + 1 + operand_tokens(bc, pos, major)),
    ensures
        operand_tokens(bc + extra, pos, major) == operand_tokens(bc, pos, major),
        instruction_at(bc + extra, pos, op, major) == instruction_at(bc, pos, op, major),
{
    let longer = bc + extra;
    assert(longer[pos] == bc[pos]);
    if pos + 1 < bc.len() {
        assert(longer[pos + 1] == bc[pos + 1]);
    }
    if major < 2 {
        runs_that_stop_stay(bc, extra, pos + 1);
    }
    let count = operand_tokens(bc, pos, major);
    if let Ok((dst, d)) = dst_part(bc, pos, op, count) {
        assert(dst_part(longer, pos, op, count) == dst_part(bc, pos, op, count));
        let left = tokens_left(count, d);
        if let Ok((predicate, p)) = predicate_part(bc, pos + 1 + d, bc[pos], left) {
            if bc[pos] & 0x1000_0000 != 0 && left > 0 {
                sources_that_parse_stay(bc, extra, pos + 1 + d, false);
            }
            operand_lists_that_parse_stay(
                bc,
                extra,
                pos + 1 + d + p,
                tokens_left(left, p),
                major < 2,
                Seq::empty(),
            );
        }
    }
}

proof fn items_that_parse_stay(bc: Seq<u32>, extra: Seq<u32>, pos: int, major: u8)
    requires
        0 <= pos,
        item_at(bc, pos, major) matches Ok((item, rest)) && (item is End || run_ends(
            bc,
            extra,
            pos + 1 + rest,
        )),
    ensures
        item_at(bc + extra, pos, major) == item_at(bc, pos, major),
{
    let longer = bc + extra;
    assert(longer[pos] == bc[pos]);
    let code = opcode_field(bc[pos]);
    if let Some(op) = Opcode::decoded(code) {
        match op {
            Opcode::End | Opcode::Comment | Opcode::Phase | Opcode::Ret => {},
            Opcode::Dcl | Opcode::DefB => {
                assert(longer[pos + 1] == bc[pos + 1] && longer[pos + 2] == bc[pos + 2]);
            },
            Opcode::Def | Opcode::DefI => {
                assert(longer[pos + 1] == bc[pos + 1] && longer[pos + 2] == bc[pos + 2] && longer[pos
                    + 3] == bc[pos + 3] && longer[pos + 4] == bc[pos + 4] && longer[pos + 5]
                    == bc[pos + 5]);
            },
            Opcode::Label => {
                sources_that_parse_stay(bc, extra, pos + 1, false);
            },
            _ => {
                instructions_that_parse_stay(bc, extra, pos, op, major);
            },
        }
    }
}

proof fn remaining_items_stay(bc: Seq<u32>, extra: Seq<u32>, pos: int, st: ParseState)
    requires
        0 <= pos,
        parsed_from(bc, pos, st) is Ok,
    ensures
        parsed_from(bc + extra, pos, st) == parsed_from(bc, pos, st),
    decreases tokens_from(bc, pos),
{
    if let Ok((item, rest)) = item_at(bc, pos, st.program.major) {
        if !(item is End) {
            let next = pos + 1 + rest;
            assert(parsed_from(bc, next, st.absorb(item)) is Ok);
            assert(item_at(bc, next, st.absorb(item).program.major) is Ok);
            items_that_parse_stay(bc, extra, pos, st.program.major);
            remaining_items_stay(bc, extra, next, st.absorb(item));
        } else {
            items_that_parse_stay(bc, extra, pos, st.program.major);
        }
    }
}

/// Nothing after the end marker matters: a stream that parses still gives the
/// same program with anything behind it.
pub proof fn tokens_after_the_end_do_not_matter(bc: Seq<u32>, extra: Seq<u32>)
    requires
        parsed(bc) is Ok,
    ensures
        parsed(bc + extra) == parsed(bc),
{
    assert((bc + extra)[0] == bc[0]);
    if let Ok((shader_type, major, minor)) = header_of(bc[0]) {
        remaining_items_stay(bc, extra, 1, fresh_state(shader_type, major, minor));
    }
}

// ---------------------------------------------------------------------------
// Cuts
// ---------------------------------------------------------------------------

/// The shader model of a stream.
pub open spec fn major_of(bc: Seq<u32>) -> u8 {
    match header_of(bc[0]) {
        Ok((_, major, _)) => major,
        Err(_) => 0,
    }
}

/// The place of the end marker that ends the items from `pos` on.
pub open spec fn end_from(bc: Seq<u32>, pos: int, major: u8) -> int
    decreases tokens_from(bc, pos),
{
    match item_at(bc, pos, major) {
        Err(_) => pos,
        Ok((ItemView::End, _)) => pos,
        Ok((_, rest)) => end_from(bc, pos + 1 + rest, major),
    }
}

/// The place of the end marker that ends a stream.
pub open spec fn end_of(bc: Seq<u32>) -> int {
    end_from(bc, 1, major_of(bc))
}

proof fn runs_are_cut(bc: Seq<u32>, k: int, pos: int)
    requires
        0 <= pos <= k <= bc.len(),
    ensures
        operand_run(bc.take(k), pos) == if pos + operand_run(bc, pos) <= k {
            operand_run(bc, pos) as int
        } else {
            k - pos
        },
    decreases k - pos,
{
    if pos < k {
        assert(bc.take(k)[pos] == bc[pos]);
        if bc[pos] & 0x8000_0000 != 0 {
            runs_are_cut(bc, k, pos + 1);
        }
    }
}

proof fn sources_are_cut(bc: Seq<u32>, k: int, pos: int, sm1: bool)
    requires
        0 <= pos,
        0 <= k <= bc.len(),
    ensures
        src_at(bc, pos, sm1) matches Ok((src, taken)) ==> src_at(bc.take(k), pos, sm1) == if pos
            + taken <= k {
            src_at(bc, pos, sm1)
        } else {
            Err(DxsoError::Truncated)
        },
{
    if pos < k {
        assert(bc.take(k)[pos] == bc[pos]);
        if pos + 1 < k {
            assert(bc.take(k)[pos + 1] == bc[pos + 1]);
        }
    }
}

proof fn operand_lists_are_cut(
    bc: Seq<u32>,
    k: int,
    pos: int,
    remaining: nat,
    sm1: bool,
    acc: Seq<SrcOperand>,
)
    requires
        0 <= pos,
        0 <= k <= bc.len(),
        srcs_from(bc, pos, remaining, sm1, acc) is Ok,
    ensures
        srcs_from(bc.take(k), pos, remaining, sm1, acc) == if remaining == 0 || pos + remaining
            <= k {
            srcs_from(bc, pos, remaining, sm1, acc)
        } else {
            Err(DxsoError::Truncated)
        },
    decreases remaining,
{
    if remaining > 0 {
        sources_are_cut(bc, k, pos, sm1);
        if let Ok((src, taken)) = src_at(bc, pos, sm1) {
            operand_lists_are_cut(
                bc,
                k,
                pos + taken,
                (remaining - taken) as nat,
                sm1,
                acc.push(src),
            );
        }
    }
}

proof fn shorter_lists_parse(
    bc: Seq<u32>,
    k: int,
    pos: int,
    remaining: nat,
    fewer: nat,
    acc: Seq<SrcOperand>,
)
    requires
        0 <= pos,
        fewer <= remaining,
        pos + fewer <= k <= bc.len(),
        srcs_from(bc, pos, remaining, true, acc) is Ok,
    ensures
        srcs_from(bc.take(k), pos, fewer, true, acc) is Ok,
    decreases fewer,
{
    if fewer > 0 {
        sources_are_cut(bc, k, pos, true);
        if let Ok((src, taken)) = src_at(bc, pos, true) {
            shorter_lists_parse(
                bc,
                k,
                pos + taken,
                (remaining - taken) as nat,
                (fewer - taken) as nat,
                acc.push(src),
            );
        }
    }
}

/// Whether `r` is what a cut at `k` makes of an item: nothing but the end of the
/// stream follows.
spec fn is_cut_short(r: Result<(ItemView, nat), DxsoError>, pos: int, k: int) -> bool {
    match r {
        Err(e) => e == DxsoError::Truncated,
        Ok((item, rest)) => !(item is End) && pos + 1 + rest == k,
    }
}

proof fn whole_instructions_survive(bc: Seq<u32>, k: int, pos: int, op: Opcode, major: u8)
    requires
        0 <= pos < k <= bc.len(),
        instruction_at(bc, pos, op, major) is Ok,
        pos + 1 + operand_tokens(bc, pos, major) <= k,
    ensures
        operand_tokens(bc.take(k), pos, major) == operand_tokens(bc, pos, major),
        instruction_at(bc.take(k), pos, op, major) == instruction_at(bc, pos, op, major),
{
    let cut = bc.take(k);
    assert(cut[pos] == bc[pos]);
    if pos + 1 < k {
        assert(cut[pos + 1] == bc[pos + 1]);
    }
    runs_are_cut(bc, k, pos + 1);
    let count = operand_tokens(bc, pos, major);
    if let Ok((dst, d)) = dst_part(bc, pos, op, count) {
        let left = tokens_left(count, d);
        sources_are_cut(bc, k, pos + 1 + d, false);
        if let Ok((predicate, p)) = predicate_part(bc, pos + 1 + d, bc[pos], left) {
            operand_lists_are_cut(
                bc,
                k,
                pos + 1 + d + p,
                tokens_left(left, p),
                major < 2,
                Seq::empty(),
            );
        }
    }
}

proof fn cut_instructions_end_the_stream(bc: Seq<u32>, k: int, pos: int, op: Opcode, major: u8)
    requires
        0 <= pos < k <= bc.len(),
        instruction_at(bc, pos, op, major) is Ok,
        k < pos + 1 + operand_tokens(bc, pos, major),
    ensures
        instruction_at(bc.take(k), pos, op, major) matches Err(e) ==> e == DxsoError::Truncated,
        instruction_at(bc.take(k), pos, op, major) is Ok ==> pos + 1 + operand_tokens(
            bc.take(k),
            pos,
            major,
        ) == k,
{
    let cut = bc.take(k);
    assert(cut[pos] == bc[pos]);
    if pos + 1 < k {
        assert(cut[pos + 1] == bc[pos + 1]);
    }
    runs_are_cut(bc, k, pos + 1);
    let count = operand_tokens(bc, pos, major);
    let short = operand_tokens(cut, pos, major);
    if let Ok((dst, d)) = dst_part(bc, pos, op, count) {
        let left = tokens_left(count, d);
        sources_are_cut(bc, k, pos + 1 + d, false);
        if let Ok((predicate, p)) = predicate_part(bc, pos + 1 + d, bc[pos], left) {
            if major >= 2 {
                operand_lists_are_cut(
                    bc,
                    k,
                    pos + 1 + d + p,
                    tokens_left(left, p),
                    false,
                    Seq::empty(),
                );
            } else if d + p <= short {
                shorter_lists_parse(
                    bc,
                    k,
                    pos + 1 + d + p,
                    tokens_left(left, p),
                    tokens_left(tokens_left(short, d), p),
                    Seq::empty(),
                );
            }
        }
    }
}

proof fn whole_items_survive(bc: Seq<u32>, k: int, pos: int, major: u8)
    requires
        0 <= pos < k <= bc.len(),
        item_at(bc, pos, major) matches Ok((item, rest)) && pos + 1 + rest <= k,
    ensures
        item_at(bc.take(k), pos, major) == item_at(bc, pos, major),
{
    let cut = bc.take(k);
    assert(cut[pos] == bc[pos]);
    if let Some(op) = Opcode::decoded(opcode_field(bc[pos])) {
        match op {
            Opcode::End | Opcode::Comment | Opcode::Phase | Opcode::Ret => {},
            Opcode::Dcl | Opcode::DefB => {
                assert(cut[pos + 1] == bc[pos + 1] && cut[pos + 2] == bc[pos + 2]);
            },
            Opcode::Def | Opcode::DefI => {
                assert(cut[pos + 1] == bc[pos + 1] && cut[pos + 2] == bc[pos + 2] && cut[pos + 3]
                    == bc[pos + 3] && cut[pos + 4] == bc[pos + 4] && cut[pos + 5] == bc[pos + 5]);
            },
            Opcode::Label => {
                sources_are_cut(bc, k, pos + 1, false);
            },
            _ => {
                whole_instructions_survive(bc, k, pos, op, major);
            },
        }
    }
}

proof fn cut_items_end_the_stream(bc: Seq<u32>, k: int, pos: int, major: u8)
    requires
        0 <= pos < k <= bc.len(),
        item_at(bc, pos, major) matches Ok((item, rest)) && k < pos + 1 + rest,
    ensures
        is_cut_short(item_at(bc.take(k), pos, major), pos, k),
{
    let cut = bc.take(k);
    assert(cut[pos] == bc[pos]);
    if pos + 1 < k {
        assert(cut[pos + 1] == bc[pos + 1]);
    }
    if let Some(op) = Opcode::decoded(opcode_field(bc[pos])) {
        match op {
            Opcode::End
            | Opcode::Comment
            | Opcode::Phase
            | Opcode::Ret
            | Opcode::Dcl
            | Opcode::DefB
            | Opcode::Def
            | Opcode::DefI => {},
            Opcode::Label => {
                sources_are_cut(bc, k, pos + 1, false);
            },
            _ => {
                cut_instructions_end_the_stream(bc, k, pos, op, major);
            },
        }
    }
}

proof fn remaining_items_are_cut(bc: Seq<u32>, k: int, pos: int, st: ParseState)
    requires
        0 <= pos <= k <= end_from(bc, pos, st.program.major),
        parsed_from(bc, pos, st) is Ok,
        k <= bc.len(),
    ensures
        parsed_from(bc.take(k), pos, st) == Err::<ProgramView, DxsoError>(DxsoError::Truncated),
    decreases tokens_from(bc, pos),
{
    let major = st.program.major;
    if pos < k {
        if let Ok((item, rest)) = item_at(bc, pos, major) {
            let next = pos + 1 + rest;
            if next <= k {
                whole_items_survive(bc, k, pos, major);
                remaining_items_are_cut(bc, k, next, st.absorb(item));
            } else {
                cut_items_end_the_stream(bc, k, pos, major);
                if let Ok((part, short)) = item_at(bc.take(k), pos, major) {
                    assert(item_at(bc.take(k), k, major) is Err);
                    assert(parsed_from(bc.take(k), k, st.absorb(part)) == Err::<
                        ProgramView,
                        DxsoError,
                    >(DxsoError::Truncated));
                }
            }
        }
    }
}

proof fn ends_lie_in_the_stream(bc: Seq<u32>, pos: int, st: ParseState)
    requires
        0 <= pos,
        parsed_from(bc, pos, st) is Ok,
    ensures
        pos <= end_from(bc, pos, st.program.major) < bc.len(),
        item_at(bc, end_from(bc, pos, st.program.major), st.program.major) matches Ok((item, _))
            && item is End,
    decreases tokens_from(bc, pos),
{
    if let Ok((item, rest)) = item_at(bc, pos, st.program.major) {
        if !(item is End) {
            ends_lie_in_the_stream(bc, pos + 1 + rest, st.absorb(item));
        }
    }
}

/// A stream that parses has an end marker after its header.
pub proof fn parsed_streams_have_an_end(bc: Seq<u32>)
    requires
        parsed(bc) is Ok,
    ensures
        1 <= end_of(bc) < bc.len(),
        item_at(bc, end_of(bc), major_of(bc)) matches Ok((item, _)) && item is End,
{
    if let Ok((shader_type, major, minor)) = header_of(bc[0]) {
        ends_lie_in_the_stream(bc, 1, fresh_state(shader_type, major, minor));
    }
}

/// A stream that parses is truncated wherever it is cut off before its end
/// marker.
pub proof fn every_cut_before_the_end_is_truncated(bc: Seq<u32>, k: int)
    requires
        parsed(bc) is Ok,
        0 <= k <= end_of(bc),
    ensures
        parsed(bc.take(k)) == Err::<ProgramView, DxsoError>(DxsoError::Truncated),
{
    parsed_streams_have_an_end(bc);
    if k > 0 {
        assert(bc.take(k)[0] == bc[0]);
        if let Ok((shader_type, major, minor)) = header_of(bc[0]) {
            remaining_items_are_cut(bc, k, 1, fresh_state(shader_type, major, minor));
        }
    }
}

// ---------------------------------------------------------------------------
// Comments
// ---------------------------------------------------------------------------

/// Whether `place` is where an item starts, of those from `pos` on.
pub open spec fn item_starts_from(bc: Seq<u32>, pos: int, major: u8, place: int) -> bool
    decreases tokens_from(bc, pos),
{
    pos == place || match item_at(bc, pos, major) {
        Err(_) => false,
        Ok((ItemView::End, _)) => false,
        Ok((_, rest)) => item_starts_from(bc, pos + 1 + rest, major, place),
    }
}

/// Whether `place` is where an item of the stream starts.
pub open spec fn item_starts(bc: Seq<u32>, place: int) -> bool {
    item_starts_from(bc, 1, major_of(bc), place)
}

/// The comment that holds `payload`.
pub open spec fn comment(payload: Seq<u32>) -> Seq<u32> {
    seq![0xFFFEu32 | ((payload.len() as u32) << 16)] + payload
}

/// `bc` with `more` put in at `place`.
pub open spec fn with_inserted(bc: Seq<u32>, place: int, more: Seq<u32>) -> Seq<u32> {
    bc.take(place) + more + bc.skip(place)
}

proof fn runs_depend_on_the_rest(bc: Seq<u32>, p: int, q: int)
    requires
        0 <= p <= bc.len(),
        0 <= q,
    ensures
        operand_run(bc.skip(p), q) == operand_run(bc, p + q),
    decreases bc.len() - p - q,
{
    if p + q < bc.len() {
        assert(bc.skip(p)[q] == bc[p + q]);
        if bc[p + q] & 0x8000_0000 != 0 {
            runs_depend_on_the_rest(bc, p, q + 1);
        }
    }
}

proof fn sources_depend_on_the_rest(bc: Seq<u32>, p: int, q: int, sm1: bool)
    requires
        0 <= p <= bc.len(),
        0 <= q,
    ensures
        src_at(bc.skip(p), q, sm1) == src_at(bc, p + q, sm1),
{
    if p + q < bc.len() {
        assert(bc.skip(p)[q] == bc[p + q]);
    }
    if p + q + 1 < bc.len() {
        assert(bc.skip(p)[q + 1] == bc[p + q + 1]);
    }
}

proof fn operand_lists_depend_on_the_rest(
    bc: Seq<u32>,
    p: int,
    q: int,
    remaining: nat,
    sm1: bool,
    acc: Seq<SrcOperand>,
)
    requires
        0 <= p <= bc.len(),
        0 <= q,
    ensures
        srcs_from(bc.skip(p), q, remaining, sm1, acc) == srcs_from(bc, p + q, remaining, sm1, acc),
    decreases remaining,
{
    if remaining > 0 {
        sources_depend_on_the_rest(bc, p, q, sm1);
        if let Ok((src, taken)) = src_at(bc, p + q, sm1) {
            if taken <= remaining {
                operand_lists_depend_on_the_rest(
                    bc,
                    p,
                    q + taken,
                    (remaining - taken) as nat,
                    sm1,
                    acc.push(src),
                );
            }
        }
    }
}

proof fn instructions_depend_on_the_rest(bc: Seq<u32>, p: int, q: int, op: Opcode, major: u8)
    requires
        0 <= p,
        0 <= q,
        p + q < bc.len(),
    ensures
        operand_tokens(bc.skip(p), q, major) == operand_tokens(bc, p + q, major),
        instruction_at(bc.skip(p), q, op, major) == instruction_at(bc, p + q, op, major),
{
    let tail = bc.skip(p);
    assert(tail[q] == bc[p + q]);
    if p + q + 1 < bc.len() {
        assert(tail[q + 1] == bc[p + q + 1]);
    }
    runs_depend_on_the_rest(bc, p, q + 1);
    let count = operand_tokens(bc, p + q, major);
    if let Ok((dst, d)) = dst_part(bc, p + q, op, count) {
        let left = tokens_left(count, d);
        sources_depend_on_the_rest(bc, p, q + 1 + d, false);
        if let Ok((predicate, n)) = predicate_part(bc, p + q + 1 + d, bc[p + q], left) {
            operand_lists_depend_on_the_rest(
                bc,
                p,
                q + 1 + d + n,
                tokens_left(left, n),
                major < 2,
                Seq::empty(),
            );
        }
    }
}

proof fn items_depend_on_the_rest(bc: Seq<u32>, p: int, q: int, major: u8)
    requires
        0 <= p <= bc.len(),
        0 <= q,
    ensures
        item_at(bc.skip(p), q, major) == item_at(bc, p + q, major),
{
    let tail = bc.skip(p);
    if p + q < bc.len() {
        assert(tail[q] == bc[p + q]);
        if let Some(op) = Opcode::decoded(opcode_field(bc[p + q])) {
            match op {
                Opcode::End | Opcode::Comment | Opcode::Phase | Opcode::Ret => {},
                Opcode::Dcl | Opcode::DefB | Opcode::Def | Opcode::DefI => {
                    if p + q + 1 < bc.len() {
                        assert(tail[q + 1] == bc[p + q + 1]);
                    }
                    if p + q + 2 < bc.len() {
                        assert(tail[q + 2] == bc[p + q + 2]);
                    }
                    if p + q + 5 < bc.len() {
                        assert(tail[q + 3] == bc[p + q + 3] && tail[q + 4] == bc[p + q + 4]
                            && tail[q + 5] == bc[p + q + 5]);
                    }
                },
                Opcode::Label => {
                    sources_depend_on_the_rest(bc, p, q + 1, false);
                },
                _ => {
                    instructions_depend_on_the_rest(bc, p, q, op, major);
                },
            }
        }
    }
}

proof fn programs_depend_on_the_rest(bc: Seq<u32>, p: int, q: int, st: ParseState)
    requires
        0 <= p <= bc.len(),
        0 <= q,
    ensures
        parsed_from(bc.skip(p), q, st) == parsed_from(bc, p + q, st),
    decreases tokens_from(bc, p + q),
{
    items_depend_on_the_rest(bc, p, q, st.program.major);
    if let Ok((item, rest)) = item_at(bc, p + q, st.program.major) {
        if !(item is End) {
            programs_depend_on_the_rest(bc, p, q + 1 + rest, st.absorb(item));
        }
    }
}

proof fn comments_are_skipped(bc: Seq<u32>, place: int, payload: Seq<u32>, major: u8)
    requires
        0 <= place <= bc.len(),
        payload.len() <= 0x7FFF,
    ensures
        comment(payload)[0] & 0x8000_0000 == 0,
        item_at(with_inserted(bc, place, comment(payload)), place, major) == Ok::<
            (ItemView, nat),
            DxsoError,
        >((ItemView::Skip, payload.len())),
{
    let n = payload.len() as u32;
    let token = 0xFFFEu32 | (n << 16);
    assert(comment(payload)[0] == token);
    assert(n <= 0x7FFF ==> (0xFFFEu32 | (n << 16)) & 0x8000_0000 == 0 && ((0xFFFEu32 | (n << 16))
        & 0xFFFF) as u16 == 0xFFFE && ((0xFFFEu32 | (n << 16)) >> 16) & 0x7FFF == n)
        by (bit_vector);
    let longer = with_inserted(bc, place, comment(payload));
    assert(longer.len() == bc.len() + 1 + payload.len());
    assert(longer[place] == token);
    assert(opcode_field(token) == 0xFFFE);
    assert(Opcode::Comment.code() == 0xFFFE);
    assert(Opcode::decoded(0xFFFE) == Some(Opcode::Comment));
    assert(comment_field(token) == payload.len());
}

proof fn items_behind_a_comment_stay(
    bc: Seq<u32>,
    place: int,
    payload: Seq<u32>,
    st: ParseState,
)
    requires
        0 <= place <= bc.len(),
        payload.len() <= 0x7FFF,
    ensures
        parsed_from(with_inserted(bc, place, comment(payload)), place, st) == parsed_from(
            bc,
            place,
            st,
        ),
{
    let longer = with_inserted(bc, place, comment(payload));
    let next = place + 1 + payload.len();
    comments_are_skipped(bc, place, payload, st.program.major);
    assert(longer.skip(next) =~= bc.skip(place));
    programs_depend_on_the_rest(longer, next, 0, st);
    programs_depend_on_the_rest(bc, place, 0, st);
    assert(st.absorb(ItemView::Skip) == st);
}

proof fn items_before_a_comment_stay(
    bc: Seq<u32>,
    pos: int,
    place: int,
    payload: Seq<u32>,
    major: u8,
)
    requires
        0 <= pos < place <= bc.len(),
        payload.len() <= 0x7FFF,
        item_at(bc, pos, major) matches Ok((item, rest)) && pos + 1 + rest <= place,
    ensures
        item_at(with_inserted(bc, place, comment(payload)), pos, major) == item_at(bc, pos, major),
{
    comments_are_skipped(bc, place, payload, major);
    whole_items_survive(bc, place, pos, major);
    let more = comment(payload) + bc.skip(place);
    assert(with_inserted(bc, place, comment(payload)) =~= bc.take(place) + more);
    assert(more[0] == comment(payload)[0]);
    items_that_parse_stay(bc.take(place), more, pos, major);
}

proof fn remaining_items_take_a_comment(
    bc: Seq<u32>,
    pos: int,
    place: int,
    payload: Seq<u32>,
    st: ParseState,
)
    requires
        0 <= pos <= place <= bc.len(),
        payload.len() <= 0x7FFF,
        item_starts_from(bc, pos, st.program.major, place),
    ensures
        parsed_from(with_inserted(bc, place, comment(payload)), pos, st) == parsed_from(
            bc,
            pos,
            st,
        ),
    decreases tokens_from(bc, pos),
{
    if pos == place {
        items_behind_a_comment_stay(bc, place, payload, st);
    } else if let Ok((item, rest)) = item_at(bc, pos, st.program.major) {
        starts_do_not_go_back(bc, pos + 1 + rest, st.program.major, place);
        items_before_a_comment_stay(bc, pos, place, payload, st.program.major);
        remaining_items_take_a_comment(bc, pos + 1 + rest, place, payload, st.absorb(item));
    }
}

proof fn starts_do_not_go_back(bc: Seq<u32>, pos: int, major: u8, place: int)
    requires
        0 <= pos,
        item_starts_from(bc, pos, major, place),
    ensures
        pos <= place,
    decreases tokens_from(bc, pos),
{
    if pos != place {
        if let Ok((item, rest)) = item_at(bc, pos, major) {
            starts_do_not_go_back(bc, pos + 1 + rest, major, place);
        }
    }
}

/// Comments do not matter: one put in front of any item, whatever it holds,
/// leaves the outcome as it is, and so every field of the program.
pub proof fn comments_do_not_matter(bc: Seq<u32>, place: int, payload: Seq<u32>)
    requires
        1 <= place <= bc.len(),
        item_starts(bc, place),
        payload.len() <= 0x7FFF,
    ensures
        parsed(with_inserted(bc, place, comment(payload))) == parsed(bc),
{
    assert(with_inserted(bc, place, comment(payload))[0] == bc[0]);
    if let Ok((shader_type, major, minor)) = header_of(bc[0]) {
        remaining_items_take_a_comment(
            bc,
            1,
            place,
            payload,
            fresh_state(shader_type, major, minor),
        );
    }
}

} // verus!
