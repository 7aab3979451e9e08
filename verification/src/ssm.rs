//! Structured style markup: a small line language that compiles into CSS.
//!
//! A program is read line by line: `WHEN` gives a media query, `USE` names a
//! reference, `MEMBER <selector> NAMED <name>` names a selector, and
//! `SET <property> TO <value> FOR <member>` (or `AT <stage>`) sets a property.
use vstd::prelude::*;

use crate::pattern::{captures_all, regex_captures};
use crate::text::{
    chars_of, concat_all, concat_from, lemma_split_by_nonempty, push_chars, push_str,
    replace_all, replace_all_chars, split, split_exec, starts_with, string_of, trim, trim_exec,
};

verus! {

/// A compiled-out view of a `SET` block.
pub struct SetView {
    pub property: Seq<char>,
    pub value: Seq<char>,
    pub for_member: Option<Seq<char>>,
    pub at: Option<Seq<char>>,
}

/// The view of a program tree. Members are (selector, name) pairs; errors are
/// (message, flagged text) pairs.
pub struct ProgramView {
    pub viewport_restriction: Seq<char>,
    pub uses: Seq<Seq<char>>,
    pub members: Seq<(Seq<char>, Seq<char>)>,
    pub sets: Seq<SetView>,
    pub errors: Seq<(Seq<char>, Seq<char>)>,
}

/// A parsed program.
#[derive(Debug)]
pub struct SSMProgram {
    pub viewport_restriction: String,
    pub uses: Vec<SSMUseBlock>,
    pub members: Vec<SSMMemberBlock>,
    pub sets: Vec<SSMSetBlock>,
    pub errors: Vec<SSMError>,
}

/// An error found while building the program tree.
#[derive(Debug)]
pub struct SSMError {
    pub message: String,
    /// The text the error is about.
    pub flagged: String,
}

/// A `USE` block: information about the program, such as `USE ssm 1.0`.
#[derive(Debug)]
pub struct SSMUseBlock {
    pub reference: String,
}

/// A `MEMBER` block: a CSS selector kept under a custom name.
#[derive(Debug)]
pub struct SSMMemberBlock {
    pub by: String,
    pub name: String,
}

/// A `SET` block: a property set to a value on a member, or at an animation stage.
#[derive(Debug)]
pub struct SSMSetBlock {
    pub property: String,
    pub value: String,
    pub for_member: Option<String>,
    pub at: Option<String>,
}

impl View for SSMUseBlock {
    type V = Seq<char>;

    open spec fn view(&self) -> Seq<char> {
        self.reference@
    }
}

impl View for SSMMemberBlock {
    type V = (Seq<char>, Seq<char>);

    open spec fn view(&self) -> (Seq<char>, Seq<char>) {
        (self.by@, self.name@)
    }
}

impl View for SSMError {
    type V = (Seq<char>, Seq<char>);

    open spec fn view(&self) -> (Seq<char>, Seq<char>) {
        (self.message@, self.flagged@)
    }
}

impl View for SSMSetBlock {
    type V = SetView;

    open spec fn view(&self) -> SetView {
        SetView {
            property: self.property@,
            value: self.value@,
            for_member: self.for_member.deep_view(),
            at: self.at.deep_view(),
        }
    }
}

impl View for SSMProgram {
    type V = ProgramView;

    open spec fn view(&self) -> ProgramView {
        ProgramView {
            viewport_restriction: self.viewport_restriction@,
            uses: self.uses@.map_values(|u: SSMUseBlock| u@),
            members: self.members@.map_values(|m: SSMMemberBlock| m@),
            sets: self.sets@.map_values(|s: SSMSetBlock| s@),
            errors: self.errors@.map_values(|e: SSMError| e@),
        }
    }
}

// ---------------------------------------------------------------------------
// the program tree

/// The message of the error reported for a member name used twice.
pub open spec fn duplicate_member_message() -> Seq<char> {
    "a member with this name is already registered in this environment"@
}

/// Some member of `m` has the name `name`.
pub open spec fn name_taken(m: Seq<(Seq<char>, Seq<char>)>, name: Seq<char>) -> bool {
    exists|i: int| 0 <= i < m.len() && m[i].1 == name
}

/// The members and errors that the `MEMBER` matches `rows` (selector, name) give,
/// taken in order: a name already taken gives an error, else a member.
pub open spec fn member_fold(rows: Seq<Seq<Seq<char>>>) -> (
    Seq<(Seq<char>, Seq<char>)>,
    Seq<(Seq<char>, Seq<char>)>,
)
    decreases rows.len(),
{
    if rows.len() == 0 {
        (Seq::empty(), Seq::empty())
    } else {
        let (m, e) = member_fold(rows.drop_last());
        let r = rows.last();
        if name_taken(m, r[1]) {
            (m, e.push((duplicate_member_message(), r[1])))
        } else {
            (m.push((r[0], r[1])), e)
        }
    }
}

/// The `SET ... FOR` matches (property, value, member) as set blocks.
pub open spec fn for_sets(rows: Seq<Seq<Seq<char>>>) -> Seq<SetView> {
    rows.map_values(
        |r: Seq<Seq<char>>|
            SetView { property: trim(r[0]), value: trim(r[1]), for_member: Some(trim(r[2])), at: None },
    )
}

/// The `SET ... AT` matches (property, value, stage) as set blocks.
pub open spec fn at_sets(rows: Seq<Seq<Seq<char>>>) -> Seq<SetView> {
    rows.map_values(
        |r: Seq<Seq<char>>|
            SetView { property: trim(r[0]), value: trim(r[1]), for_member: None, at: Some(trim(r[2])) },
    )
}

/// Each row of `rows` holds `n` texts.
pub open spec fn rows_of(rows: Seq<Seq<Seq<char>>>, n: nat) -> bool {
    forall|i: int| 0 <= i < rows.len() ==> #[trigger] rows[i].len() == n
}

/// The program tree that the matches of the five statement patterns give.
pub open spec fn tree_of(
    when: Seq<Seq<Seq<char>>>,
    uses: Seq<Seq<Seq<char>>>,
    members: Seq<Seq<Seq<char>>>,
    sets: Seq<Seq<Seq<char>>>,
    set_ats: Seq<Seq<Seq<char>>>,
) -> ProgramView {
    ProgramView {
        viewport_restriction: if when.len() == 0 {
            Seq::empty()
        } else {
            when.last()[0]
        },
        uses: uses.map_values(|r: Seq<Seq<char>>| r[0]),
        members: member_fold(members).0,
        sets: for_sets(sets) + at_sets(set_ats),
        errors: member_fold(members).1,
    }
}

fn name_taken_exec(members: &Vec<SSMMemberBlock>, name: &String) -> (r: bool)
    ensures
        r == name_taken(members@.map_values(|m: SSMMemberBlock| m@), name@),
{
    let ghost mv = members@.map_values(|m: SSMMemberBlock| m@);
    let mut i: usize = 0;
    while i < members.len()
        invariant
            i <= members.len(),
            mv == members@.map_values(|m: SSMMemberBlock| m@),
            forall|k: int| 0 <= k < i ==> mv[k].1 != name@,
        decreases members.len() - i,
    {
        if members[i].name.eq(name) {
            assert(mv[i as int].1 == name@);
            return true;
        }
        i += 1;
    }
    false
}

/// Builds the program tree from the matches of the five statement patterns, each
/// match given by the texts of its named groups in order.
pub fn build_program_tree(
    when: &Vec<Vec<String>>,
    uses: &Vec<Vec<String>>,
    members: &Vec<Vec<String>>,
    sets: &Vec<Vec<String>>,
    set_ats: &Vec<Vec<String>>,
) -> (p: SSMProgram)
    requires
        rows_of(when.deep_view(), 1),
        rows_of(uses.deep_view(), 1),
        rows_of(members.deep_view(), 2),
        rows_of(sets.deep_view(), 3),
        rows_of(set_ats.deep_view(), 3),
    ensures
        p@ == tree_of(
            when.deep_view(),
            uses.deep_view(),
            members.deep_view(),
            sets.deep_view(),
            set_ats.deep_view(),
        ),
{
    let ghost wv = when.deep_view();
    let ghost uv = uses.deep_view();
    let ghost mv = members.deep_view();
    let ghost sv = sets.deep_view();
    let ghost av = set_ats.deep_view();
    // WHEN: the last one counts
    let viewport_restriction = if when.len() > 0 {
        assert(wv[wv.len() - 1].len() == 1);
        when[when.len() - 1][0].clone()
    } else {
        String::new()
    };
    // USE
    let mut use_blocks: Vec<SSMUseBlock> = Vec::new();
    let mut i: usize = 0;
    while i < uses.len()
        invariant
            i <= uses.len(),
            uv == uses.deep_view(),
            rows_of(uv, 1),
            use_blocks@.map_values(|u: SSMUseBlock| u@) == uv.take(i as int).map_values(
                |r: Seq<Seq<char>>| r[0],
            ),
        decreases uses.len() - i,
    {
        assert(uv[i as int].len() == 1);
        assert(uv[i as int][0] == uses@[i as int]@[0]@);
        let ghost before = use_blocks@.map_values(|u: SSMUseBlock| u@);
        use_blocks.push(SSMUseBlock { reference: uses[i][0].clone() });
        assert(use_blocks@.map_values(|u: SSMUseBlock| u@) =~= before.push(uv[i as int][0]));
        assert(uv.take(i + 1).map_values(|r: Seq<Seq<char>>| r[0]) =~= uv.take(i as int).map_values(
            |r: Seq<Seq<char>>| r[0],
        ).push(uv[i as int][0]));
        assert(use_blocks@.map_values(|u: SSMUseBlock| u@) =~= uv.take(i + 1).map_values(
            |r: Seq<Seq<char>>| r[0],
        ));
        i += 1;
    }
    assert(uv.take(uses.len() as int) == uv);
    // MEMBER: a name may be registered once
    let mut member_blocks: Vec<SSMMemberBlock> = Vec::new();
    let mut errors: Vec<SSMError> = Vec::new();
    let mut i: usize = 0;
    while i < members.len()
        invariant
            i <= members.len(),
            mv == members.deep_view(),
            rows_of(mv, 2),
            member_fold(mv.take(i as int)) == (
                member_blocks@.map_values(|m: SSMMemberBlock| m@),
                errors@.map_values(|e: SSMError| e@),
            ),
        decreases members.len() - i,
    {
        assert(mv[i as int].len() == 2);
        assert(mv.take(i + 1).drop_last() == mv.take(i as int));
        assert(mv.take(i + 1).last() == mv[i as int]);
        let name = members[i][1].clone();
        if name_taken_exec(&member_blocks, &name) {
            errors.push(
                SSMError {
                    message: String::from_str(
                        "a member with this name is already registered in this environment",
                    ),
                    flagged: name,
                },
            );
            assert(errors@.map_values(|e: SSMError| e@) =~= member_fold(mv.take(i + 1)).1);
        } else {
            member_blocks.push(SSMMemberBlock { by: members[i][0].clone(), name });
            assert(member_blocks@.map_values(|m: SSMMemberBlock| m@) =~= member_fold(
                mv.take(i + 1),
            ).0);
        }
        i += 1;
    }
    assert(mv.take(members.len() as int) == mv);
    // SET ... FOR, then SET ... AT
    let mut set_blocks: Vec<SSMSetBlock> = Vec::new();
    let mut i: usize = 0;
    while i < sets.len()
        invariant
            i <= sets.len(),
            sv == sets.deep_view(),
            rows_of(sv, 3),
            set_blocks@.map_values(|s: SSMSetBlock| s@) == for_sets(sv.take(i as int)),
        decreases sets.len() - i,
    {
        assert(sv[i as int].len() == 3);
        assert(sv[i as int][0] == sets@[i as int]@[0]@);
        assert(sv[i as int][1] == sets@[i as int]@[1]@);
        assert(sv[i as int][2] == sets@[i as int]@[2]@);
        let ghost before = set_blocks@.map_values(|s: SSMSetBlock| s@);
        let property = trim_exec(sets[i][0].as_str());
        let value = trim_exec(sets[i][1].as_str());
        let member = trim_exec(sets[i][2].as_str());
        set_blocks.push(
            SSMSetBlock { property, value, for_member: Some(member), at: None },
        );
        assert(set_blocks@.map_values(|s: SSMSetBlock| s@) =~= before.push(for_sets(sv)[i as int]));
        assert(for_sets(sv.take(i + 1)) =~= for_sets(sv.take(i as int)).push(for_sets(sv)[i as int]));
        assert(set_blocks@.map_values(|s: SSMSetBlock| s@) =~= for_sets(sv.take(i + 1)));
        i += 1;
    }
    assert(sv.take(sets.len() as int) == sv);
    let mut i: usize = 0;
    while i < set_ats.len()
        invariant
            i <= set_ats.len(),
            av == set_ats.deep_view(),
            rows_of(av, 3),
            set_blocks@.map_values(|s: SSMSetBlock| s@) == for_sets(sv) + at_sets(
                av.take(i as int),
            ),
        decreases set_ats.len() - i,
    {
        assert(av[i as int].len() == 3);
        assert(av[i as int][0] == set_ats@[i as int]@[0]@);
        assert(av[i as int][1] == set_ats@[i as int]@[1]@);
        assert(av[i as int][2] == set_ats@[i as int]@[2]@);
        let ghost before = set_blocks@.map_values(|s: SSMSetBlock| s@);
        let property = trim_exec(set_ats[i][0].as_str());
        let value = trim_exec(set_ats[i][1].as_str());
        let at = trim_exec(set_ats[i][2].as_str());
        set_blocks.push(SSMSetBlock { property, value, for_member: None, at: Some(at) });
        assert(set_blocks@.map_values(|s: SSMSetBlock| s@) =~= before.push(at_sets(av)[i as int]));
        assert(at_sets(av.take(i + 1)) =~= at_sets(av.take(i as int)).push(at_sets(av)[i as int]));
        assert(set_blocks@.map_values(|s: SSMSetBlock| s@) =~= for_sets(sv) + at_sets(
            av.take(i + 1),
        ));
        i += 1;
    }
    assert(av.take(set_ats.len() as int) == av);
    let p = SSMProgram {
        viewport_restriction,
        uses: use_blocks,
        members: member_blocks,
        sets: set_blocks,
        errors,
    };
    assert(p@ =~= tree_of(wv, uv, mv, sv, av));
    p
}


// ---------------------------------------------------------------------------
// compiling a program tree into CSS

/// The declaration `property: value;` of a set block.
pub open spec fn decl(s: SetView) -> Seq<char> {
    s.property + ": "@ + s.value + ";"@
}

/// The declarations of the sets of `sets` that are for the member `name`, in order.
pub open spec fn sets_for(sets: Seq<SetView>, name: Seq<char>) -> Seq<char>
    decreases sets.len(),
{
    if sets.len() == 0 {
        Seq::empty()
    } else {
        sets_for(sets.drop_last(), name) + if sets.last().for_member == Some(name) {
            decl(sets.last())
        } else {
            Seq::empty()
        }
    }
}

/// The rule of a member (selector, name) with its declarations.
pub open spec fn member_block(m: (Seq<char>, Seq<char>), sets: Seq<SetView>) -> Seq<char> {
    replace_all(
        m.0 + "[named='"@ + m.1 + "'] {}\n"@ + m.0 + " {REMOVE}}"@ + sets_for(sets, m.1),
        "REMOVE}}"@,
        Seq::empty(),
    ) + "}"@
}

/// The rules of all `members`, in order.
pub open spec fn members_text(members: Seq<(Seq<char>, Seq<char>)>, sets: Seq<SetView>) -> Seq<
    char,
>
    decreases members.len(),
{
    if members.len() == 0 {
        Seq::empty()
    } else {
        members_text(members.drop_last(), sets) + member_block(members.last(), sets)
    }
}

/// `s` is for a member that `members` registers (so it went into that member's rule).
pub open spec fn is_member_set(s: SetView, members: Seq<(Seq<char>, Seq<char>)>) -> bool {
    s.for_member matches Some(n) && name_taken(members, n)
}

/// The rule of a set block that is for no registered member.
pub open spec fn rest_block(s: SetView) -> Seq<char> {
    replace_all(
        match s.at {
            Some(a) => a + " {REMOVE}}"@,
            None => s.for_member.unwrap() + " {REMOVE}} --ssm-warn: 'unknown member';"@,
        } + decl(s),
        "REMOVE}}"@,
        Seq::empty(),
    ) + "}"@
}

/// The rules of the sets of `sets` that are for no registered member, in order.
pub open spec fn rest_text(sets: Seq<SetView>, members: Seq<(Seq<char>, Seq<char>)>) -> Seq<char>
    decreases sets.len(),
{
    if sets.len() == 0 {
        Seq::empty()
    } else {
        rest_text(sets.drop_last(), members) + if is_member_set(sets.last(), members) {
            Seq::empty()
        } else {
            rest_block(sets.last())
        }
    }
}

/// The rule that shows an error (message, flagged text).
pub open spec fn error_block(e: (Seq<char>, Seq<char>)) -> Seq<char> {
    "body::before {\n                position: absolute;\n                bottom: 0;\n                left: 0;\n                content: '[SSMError]: \\'"@
        + e.1 + "\\' | "@ + e.0
        + "';\n                border-left: solid red 5px;\n                background: black;\n                padding-left: 1rem;\n            }"@
}

/// The rules of all `errors`, in order.
pub open spec fn errors_text(errors: Seq<(Seq<char>, Seq<char>)>) -> Seq<char>
    decreases errors.len(),
{
    if errors.len() == 0 {
        Seq::empty()
    } else {
        errors_text(errors.drop_last()) + error_block(errors.last())
    }
}

/// The first reference of `uses` that starts with `ssm::anim`.
pub open spec fn anim_use(uses: Seq<Seq<char>>) -> Option<Seq<char>>
    decreases uses.len(),
{
    if uses.len() == 0 {
        None
    } else if starts_with(uses[0], "ssm::anim"@) {
        Some(uses[0])
    } else {
        anim_use(uses.skip(1))
    }
}

/// The name of an animation given by the reference `r`: all that follows the
/// first `ssm::anim ` in it, with later occurrences of that text left out.
pub open spec fn anim_name(r: Seq<char>) -> Seq<char> {
    concat_all(split(r, "ssm::anim "@).skip(1))
}

/// `out` with an import put in front of it for each reference of `uses` that
/// starts with `http`, taken in order (so the last one ends up first).
pub open spec fn with_imports(uses: Seq<Seq<char>>, out: Seq<char>) -> Seq<char>
    decreases uses.len(),
{
    if uses.len() == 0 {
        out
    } else {
        let o = with_imports(uses.drop_last(), out);
        if starts_with(uses.last(), "http"@) {
            "@import url(\""@ + uses.last() + "\");"@ + o
        } else {
            o
        }
    }
}

/// The text that the compiler removes from its output, taken literally.
pub open spec fn comment_text() -> Seq<char> {
    "^@\\s(.*?)$"@
}

/// The rules of the members, the other sets and the errors, with the comment text removed.
pub open spec fn body_text(p: ProgramView) -> Seq<char> {
    replace_all(
        members_text(p.members, p.sets) + rest_text(p.sets, p.members) + errors_text(p.errors),
        comment_text(),
        Seq::empty(),
    )
}

/// `body` put into the animation and imports that the `uses` ask for.
pub open spec fn with_uses(uses: Seq<Seq<char>>, body: Seq<char>) -> Seq<char> {
    if uses.len() > 1 {
        with_imports(
            uses,
            match anim_use(uses) {
                Some(r) => "@keyframes "@ + anim_name(r) + " {"@ + body + "}"@,
                None => body,
            },
        )
    } else {
        body
    }
}

/// The CSS that a program tree compiles into.
pub open spec fn compile(p: ProgramView) -> Seq<char> {
    let out = with_uses(p.uses, body_text(p));
    if p.viewport_restriction.len() > 0 {
        "@media screen and ("@ + p.viewport_restriction + ") {"@ + out + "}"@
    } else {
        out
    }
}

/// Each set block is for a member or at a stage.
pub open spec fn sets_placed(sets: Seq<SetView>) -> bool {
    forall|i: int| 0 <= i < sets.len() ==> #[trigger] sets[i].at is Some || sets[i].for_member is Some
}

fn is_for(set: &SSMSetBlock, name: &String) -> (r: bool)
    ensures
        r == (set@.for_member == Some(name@)),
{
    match &set.for_member {
        Some(n) => n.eq(name),
        None => false,
    }
}

fn is_member_set_exec(set: &SSMSetBlock, members: &Vec<SSMMemberBlock>) -> (r: bool)
    ensures
        r == is_member_set(set@, members@.map_values(|m: SSMMemberBlock| m@)),
{
    match &set.for_member {
        Some(n) => name_taken_exec(members, n),
        None => false,
    }
}

fn member_block_exec(m: &SSMMemberBlock, sets: &Vec<SSMSetBlock>) -> (r: Vec<char>)
    ensures
        r@ == member_block(m@, sets@.map_values(|s: SSMSetBlock| s@)),
{
    let ghost sv = sets@.map_values(|s: SSMSetBlock| s@);
    let mut mo: Vec<char> = Vec::new();
    push_str(&mut mo, m.by.as_str());
    push_str(&mut mo, "[named='");
    push_str(&mut mo, m.name.as_str());
    push_str(&mut mo, "'] {}\n");
    push_str(&mut mo, m.by.as_str());
    push_str(&mut mo, " {REMOVE}}");
    let ghost head = mo@;
    let mut j: usize = 0;
    while j < sets.len()
        invariant
            j <= sets.len(),
            sv == sets@.map_values(|s: SSMSetBlock| s@),
            mo@ == head + sets_for(sv.take(j as int), m.name@),
        decreases sets.len() - j,
    {
        assert(sv.take(j + 1).drop_last() == sv.take(j as int));
        assert(sv.take(j + 1).last() == sets@[j as int]@);
        if is_for(&sets[j], &m.name) {
            push_str(&mut mo, sets[j].property.as_str());
            push_str(&mut mo, ": ");
            push_str(&mut mo, sets[j].value.as_str());
            push_str(&mut mo, ";");
        }
        j += 1;
    }
    assert(sv.take(sets.len() as int) == sv);
    let pat = chars_of("REMOVE}}");
    proof {
        reveal_strlit("REMOVE}}");
    }
    let mut r = replace_all_chars(&mo, &pat, &Vec::new());
    push_str(&mut r, "}");
    r
}

fn rest_block_exec(s: &SSMSetBlock) -> (r: Vec<char>)
    requires
        s@.at is Some || s@.for_member is Some,
    ensures
        r@ == rest_block(s@),
{
    let mut mo: Vec<char> = Vec::new();
    match &s.at {
        Some(a) => {
            push_str(&mut mo, a.as_str());
            push_str(&mut mo, " {REMOVE}}");
        },
        None => {
            match &s.for_member {
                Some(f) => {
                    push_str(&mut mo, f.as_str());
                },
                None => {},
            }
            push_str(&mut mo, " {REMOVE}} --ssm-warn: 'unknown member';");
        },
    }
    let ghost pre = mo@;
    assert(pre == match s@.at {
        Some(a) => a + " {REMOVE}}"@,
        None => s@.for_member.unwrap() + " {REMOVE}} --ssm-warn: 'unknown member';"@,
    });
    push_str(&mut mo, s.property.as_str());
    push_str(&mut mo, ": ");
    push_str(&mut mo, s.value.as_str());
    push_str(&mut mo, ";");
    assert(mo@ =~= pre + decl(s@));
    let pat = chars_of("REMOVE}}");
    proof {
        reveal_strlit("REMOVE}}");
    }
    let mut r = replace_all_chars(&mo, &pat, &Vec::new());
    push_str(&mut r, "}");
    r
}

/// Compiles a program tree into CSS.
pub fn compile_ssm_program(tree: &SSMProgram) -> (out: String)
    requires
        sets_placed(tree@.sets),
    ensures
        out@ == compile(tree@),
{
    let ghost p = tree@;
    let mut out: Vec<char> = Vec::new();
    // members
    let mut i: usize = 0;
    while i < tree.members.len()
        invariant
            i <= tree.members.len(),
            p == tree@,
            out@ == members_text(p.members.take(i as int), p.sets),
        decreases tree.members.len() - i,
    {
        assert(p.members.take(i + 1).drop_last() == p.members.take(i as int));
        assert(p.members.take(i + 1).last() == tree.members@[i as int]@);
        let block = member_block_exec(&tree.members[i], &tree.sets);
        push_chars(&mut out, &block);
        i += 1;
    }
    assert(p.members.take(tree.members.len() as int) == p.members);
    // sets for no registered member
    let ghost head = out@;
    let mut i: usize = 0;
    while i < tree.sets.len()
        invariant
            i <= tree.sets.len(),
            p == tree@,
            sets_placed(p.sets),
            out@ == head + rest_text(p.sets.take(i as int), p.members),
        decreases tree.sets.len() - i,
    {
        assert(p.sets.take(i + 1).drop_last() == p.sets.take(i as int));
        assert(p.sets.take(i + 1).last() == tree.sets@[i as int]@);
        assert(p.sets[i as int] == tree.sets@[i as int]@);
        if !is_member_set_exec(&tree.sets[i], &tree.members) {
            let block = rest_block_exec(&tree.sets[i]);
            push_chars(&mut out, &block);
        }
        i += 1;
    }
    assert(p.sets.take(tree.sets.len() as int) == p.sets);
    // errors
    let ghost head = out@;
    let mut i: usize = 0;
    while i < tree.errors.len()
        invariant
            i <= tree.errors.len(),
            p == tree@,
            out@ == head + errors_text(p.errors.take(i as int)),
        decreases tree.errors.len() - i,
    {
        assert(p.errors.take(i + 1).drop_last() == p.errors.take(i as int));
        assert(p.errors.take(i + 1).last() == tree.errors@[i as int]@);
        push_str(
            &mut out,
            "body::before {\n                position: absolute;\n                bottom: 0;\n                left: 0;\n                content: '[SSMError]: \\'",
        );
        push_str(&mut out, tree.errors[i].flagged.as_str());
        push_str(&mut out, "\\' | ");
        push_str(&mut out, tree.errors[i].message.as_str());
        push_str(
            &mut out,
            "';\n                border-left: solid red 5px;\n                background: black;\n                padding-left: 1rem;\n            }",
        );
        i += 1;
    }
    assert(p.errors.take(tree.errors.len() as int) == p.errors);
    // the comment text is taken out
    let pat = chars_of("^@\\s(.*?)$");
    proof {
        reveal_strlit("^@\\s(.*?)$");
    }
    let mut out = replace_all_chars(&out, &pat, &Vec::new());
    assert(out@ == body_text(p));
    // uses
    if tree.uses.len() > 1 {
        let ghost uv = p.uses;
        let mut k: usize = 0;
        let mut found: Option<usize> = None;
        assert(uv.skip(0) == uv);
        while k < tree.uses.len()
            invariant
                k <= tree.uses.len(),
                p == tree@,
                uv == p.uses,
                found is None ==> anim_use(uv) == anim_use(uv.skip(k as int)),
                found matches Some(f) ==> f < uv.len() && anim_use(uv) == Some(uv[f as int]),
            decreases tree.uses.len() - k,
        {
            if found.is_none() {
                assert(uv.skip(k as int)[0] == uv[k as int]);
                assert(uv.skip(k as int).skip(1) == uv.skip(k + 1));
                if crate::text::starts_with_exec(tree.uses[k].reference.as_str(), "ssm::anim") {
                    found = Some(k);
                }
            }
            k += 1;
        }
        match found {
            Some(f) => {
                let pieces = split_exec(tree.uses[f].reference.as_str(), "ssm::anim ");
                proof {
                    reveal_strlit("ssm::anim ");
                    lemma_split_by_nonempty(uv[f as int], "ssm::anim "@);
                }
                let name = concat_from(&pieces, 1);
                let mut a: Vec<char> = Vec::new();
                push_str(&mut a, "@keyframes ");
                push_chars(&mut a, &name);
                push_str(&mut a, " {");
                push_chars(&mut a, &out);
                push_str(&mut a, "}");
                out = a;
            },
            None => {},
        }
        let ghost anim = out@;
        let mut k: usize = 0;
        while k < tree.uses.len()
            invariant
                k <= tree.uses.len(),
                p == tree@,
                uv == p.uses,
                out@ == with_imports(uv.take(k as int), anim),
            decreases tree.uses.len() - k,
        {
            assert(uv.take(k + 1).drop_last() == uv.take(k as int));
            assert(uv.take(k + 1).last() == uv[k as int]);
            if crate::text::starts_with_exec(tree.uses[k].reference.as_str(), "http") {
                let mut a: Vec<char> = Vec::new();
                push_str(&mut a, "@import url(\"");
                push_str(&mut a, tree.uses[k].reference.as_str());
                push_str(&mut a, "\");");
                push_chars(&mut a, &out);
                out = a;
            }
            k += 1;
        }
        assert(uv.take(tree.uses.len() as int) == uv);
    }
    assert(out@ == with_uses(p.uses, body_text(p)));
    // viewport restriction
    if !tree.viewport_restriction.as_str().is_empty() {
        let mut a: Vec<char> = Vec::new();
        push_str(&mut a, "@media screen and (");
        push_str(&mut a, tree.viewport_restriction.as_str());
        push_str(&mut a, ") {");
        push_chars(&mut a, &out);
        push_str(&mut a, "}");
        out = a;
    }
    string_of(&out)
}

// ---------------------------------------------------------------------------
// reading a program

/// Every row of `rows` has `n` entries, all present.
pub open spec fn complete_rows(rows: Seq<Seq<Option<Seq<char>>>>, n: nat) -> bool {
    forall|i: int|
        0 <= i < rows.len() ==> #[trigger] rows[i].len() == n && forall|j: int|
            0 <= j < n ==> #[trigger] rows[i][j] is Some
}

/// The entries of `r`, each taken out of its `Option`.
pub open spec fn unwrap_row(r: Seq<Option<Seq<char>>>) -> Seq<Seq<char>> {
    r.map_values(|o: Option<Seq<char>>| o.unwrap())
}

/// The entries of `rows`, each taken out of its `Option`.
pub open spec fn unwrap_rows(rows: Seq<Seq<Option<Seq<char>>>>) -> Seq<Seq<Seq<char>>> {
    rows.map_values(|r: Seq<Option<Seq<char>>>| unwrap_row(r))
}

/// The matches `c` of a pattern with `n` named groups, when the pattern compiled and
/// every group of every match took part.
pub open spec fn read_rows(c: Option<Seq<Seq<Option<Seq<char>>>>>, n: nat) -> Option<
    Seq<Seq<Seq<char>>>,
> {
    match c {
        Some(rows) => if complete_rows(rows, n) {
            Some(unwrap_rows(rows))
        } else {
            None
        },
        None => None,
    }
}

/// The matches of a statement pattern (multi-line mode) over `input`.
pub open spec fn statement_matches(
    pattern: Seq<char>,
    groups: Seq<Seq<char>>,
    input: Seq<char>,
) -> Option<Seq<Seq<Seq<char>>>> {
    read_rows(regex_captures(pattern, true, false, groups, input), groups.len())
}

pub open spec fn when_pattern() -> Seq<char> {
    "^(WHEN)\\s(?<RESTRICTION>.*?)($|\\%)"@
}

pub open spec fn use_pattern() -> Seq<char> {
    "^(USE)\\s(?<REFERENCE>.*?)($|\\%)"@
}

pub open spec fn member_pattern() -> Seq<char> {
    "^(MEMBER)\\s(?<SELECTOR>.*?)(\\sNAMED\\s)(?<NAME>.*?)($|\\%)"@
}

pub open spec fn set_pattern() -> Seq<char> {
    "^(SET)\\s(?<PROPERTY>.*?)(TO)(?<VALUE>.*?)(FOR)\\s(?<MEMBER>.*?)($|\\%)"@
}

pub open spec fn set_at_pattern() -> Seq<char> {
    "^(SET)\\s(?<PROPERTY>.*?)(TO)(?<VALUE>.*?)(AT)\\s(?<AT>.*?)($|\\%)"@
}

/// The program tree of `input`: `None` where a statement pattern could not be used.
pub open spec fn ssm_tree(input: Seq<char>) -> Option<ProgramView> {
    let w = statement_matches(when_pattern(), seq!["RESTRICTION"@], input);
    let u = statement_matches(use_pattern(), seq!["REFERENCE"@], input);
    let m = statement_matches(member_pattern(), seq!["SELECTOR"@, "NAME"@], input);
    let s = statement_matches(set_pattern(), seq!["PROPERTY"@, "VALUE"@, "MEMBER"@], input);
    let a = statement_matches(set_at_pattern(), seq!["PROPERTY"@, "VALUE"@, "AT"@], input);
    if w is Some && u is Some && m is Some && s is Some && a is Some {
        Some(tree_of(w.unwrap(), u.unwrap(), m.unwrap(), s.unwrap(), a.unwrap()))
    } else {
        None
    }
}

/// The CSS that the program `input` compiles into.
pub open spec fn ssm_css(input: Seq<char>) -> Option<Seq<char>> {
    match ssm_tree(input) {
        Some(p) => Some(compile(p)),
        None => None,
    }
}

/// The sets of a tree built from matches are each for a member or at a stage.
pub proof fn lemma_tree_sets_placed(
    when: Seq<Seq<Seq<char>>>,
    uses: Seq<Seq<Seq<char>>>,
    members: Seq<Seq<Seq<char>>>,
    sets: Seq<Seq<Seq<char>>>,
    set_ats: Seq<Seq<Seq<char>>>,
)
    ensures
        sets_placed(tree_of(when, uses, members, sets, set_ats).sets),
{
    let all = for_sets(sets) + at_sets(set_ats);
    assert forall|i: int| 0 <= i < all.len() implies #[trigger] all[i].at is Some
        || all[i].for_member is Some by {
        if i < sets.len() {
            assert(all[i] == for_sets(sets)[i]);
        } else {
            assert(all[i] == at_sets(set_ats)[i - sets.len()]);
        }
    }
}

fn read_rows_exec(c: Option<Vec<Vec<Option<String>>>>, n: usize) -> (r: Option<Vec<Vec<String>>>)
    ensures
        r.deep_view() == read_rows(c.deep_view(), n as nat),
{
    let ghost cdv = c.deep_view();
    assert(cdv == c.deep_view());
    match c {
        None => None,
        Some(rows) => {
            let ghost cv = rows.deep_view();
            assert(cdv == Some(cv));
            let mut out: Vec<Vec<String>> = Vec::new();
            let mut i: usize = 0;
            while i < rows.len()
                invariant
                    i <= rows.len(),
                    cv == rows.deep_view(),
                    cdv == Some(cv),
                    cdv == c.deep_view(),
                    complete_rows(cv.take(i as int), n as nat),
                    out.deep_view() == unwrap_rows(cv.take(i as int)),
                decreases rows.len() - i,
            {
                assert(cv[i as int] == rows@[i as int].deep_view());
                assert(cv[i as int].len() == rows@[i as int]@.len());
                if rows[i].len() != n {
                    assert(!complete_rows(cv, n as nat)) by {
                        assert(cv[i as int].len() != n);
                    }
                    return None;
                }
                let mut row: Vec<String> = Vec::new();
                let mut j: usize = 0;
                while j < n
                    invariant
                        i < rows.len(),
                        rows@[i as int].len() == n,
                        cv == rows.deep_view(),
                        cdv == Some(cv),
                        cdv == c.deep_view(),
                        j <= n,
                        forall|k: int| 0 <= k < j ==> #[trigger] cv[i as int][k] is Some,
                        row.deep_view() == cv[i as int].take(j as int).map_values(
                            |o: Option<Seq<char>>| o.unwrap(),
                        ),
                    decreases n - j,
                {
                    assert(cv[i as int] == rows@[i as int].deep_view());
                    assert(cv[i as int][j as int] == rows@[i as int]@[j as int].deep_view());
                    match &rows[i][j] {
                        Some(t) => {
                            let ghost before = row.deep_view();
                            row.push(t.clone());
                            assert(row.deep_view() =~= before.push(t@));
                            assert(cv[i as int].take(j + 1) =~= cv[i as int].take(j as int).push(Some(t@)));
                            assert(row.deep_view() =~= cv[i as int].take(j + 1).map_values(
                                |o: Option<Seq<char>>| o.unwrap(),
                            ));
                        },
                        None => {
                            assert(!complete_rows(cv, n as nat)) by {
                                assert(cv[i as int][j as int] is None);
                            }
                            return None;
                        },
                    }
                    j += 1;
                }
                assert(cv[i as int].take(n as int) == cv[i as int]);
                let ghost before = out.deep_view();
                let ghost rv = row.deep_view();
                out.push(row);
                assert(out.deep_view() =~= before.push(rv));
                assert(cv.take(i + 1) =~= cv.take(i as int).push(cv[i as int]));
                assert(unwrap_rows(cv.take(i + 1)) =~= unwrap_rows(cv.take(i as int)).push(
                    unwrap_row(cv[i as int]),
                ));
                assert(complete_rows(cv.take(i + 1), n as nat)) by {
                    assert forall|a: int| 0 <= a < i + 1 implies #[trigger] cv.take(i + 1)[a].len()
                        == n && forall|b: int|
                        0 <= b < n ==> #[trigger] cv.take(i + 1)[a][b] is Some by {
                        if a < i {
                            assert(cv.take(i + 1)[a] == cv.take(i as int)[a]);
                        }
                    }
                }
                i += 1;
            }
            assert(cv.take(rows.len() as int) == cv);
            Some(out)
        },
    }
}

fn names_of(a: &str, b: &str, c: &str, n: usize) -> (r: Vec<String>)
    requires
        1 <= n <= 3,
    ensures
        r.deep_view() == (if n == 1 {
            seq![a@]
        } else if n == 2 {
            seq![a@, b@]
        } else {
            seq![a@, b@, c@]
        }),
{
    let mut r: Vec<String> = Vec::new();
    r.push(String::from_str(a));
    if n >= 2 {
        r.push(String::from_str(b));
    }
    if n >= 3 {
        r.push(String::from_str(c));
    }
    assert(r.deep_view() =~= (if n == 1 {
        seq![a@]
    } else if n == 2 {
        seq![a@, b@]
    } else {
        seq![a@, b@, c@]
    }));
    r
}

fn statement_matches_exec(pattern: &str, groups: &Vec<String>, input: &str) -> (r: Option<
    Vec<Vec<String>>,
>)
    ensures
        r.deep_view() == statement_matches(pattern@, groups.deep_view(), input@),
{
    let c = captures_all(pattern, true, false, groups, input);
    read_rows_exec(c, groups.len())
}

/// The program tree of `input`; `None` where a statement pattern could not be used
/// (where the regex engine refused a pattern, or a match lacked a group).
pub fn program_tree(input: &str) -> (r: Option<SSMProgram>)
    ensures
        r matches Some(p) ==> ssm_tree(input@) == Some(p@),
        r is None ==> ssm_tree(input@) is None,
{
    let wg = names_of("RESTRICTION", "", "", 1);
    let ug = names_of("REFERENCE", "", "", 1);
    let mg = names_of("SELECTOR", "NAME", "", 2);
    let sg = names_of("PROPERTY", "VALUE", "MEMBER", 3);
    let ag = names_of("PROPERTY", "VALUE", "AT", 3);
    let w = statement_matches_exec("^(WHEN)\\s(?<RESTRICTION>.*?)($|\\%)", &wg, input);
    let u = statement_matches_exec("^(USE)\\s(?<REFERENCE>.*?)($|\\%)", &ug, input);
    let m = statement_matches_exec(
        "^(MEMBER)\\s(?<SELECTOR>.*?)(\\sNAMED\\s)(?<NAME>.*?)($|\\%)",
        &mg,
        input,
    );
    let s = statement_matches_exec(
        "^(SET)\\s(?<PROPERTY>.*?)(TO)(?<VALUE>.*?)(FOR)\\s(?<MEMBER>.*?)($|\\%)",
        &sg,
        input,
    );
    let a = statement_matches_exec(
        "^(SET)\\s(?<PROPERTY>.*?)(TO)(?<VALUE>.*?)(AT)\\s(?<AT>.*?)($|\\%)",
        &ag,
        input,
    );
    match (w, u, m, s, a) {
        (Some(w), Some(u), Some(m), Some(s), Some(a)) => {
            proof {
                assert(rows_of(w.deep_view(), 1)) by {
                    assert(forall|i: int| 0 <= i < w.deep_view().len() ==> #[trigger] w.deep_view()[i].len() == 1);
                }
            }
            Some(build_program_tree(&w, &u, &m, &s, &a))
        },
        _ => None,
    }
}

/// Compiles the program `input` into CSS; `None` where a statement pattern could not
/// be used.
pub fn parse_ssm_program(input: String) -> (r: Option<String>)
    ensures
        r.deep_view() == ssm_css(input@),
{
    match program_tree(input.as_str()) {
        Some(tree) => {
            proof {
                let w = statement_matches(when_pattern(), seq!["RESTRICTION"@], input@).unwrap();
                let u = statement_matches(use_pattern(), seq!["REFERENCE"@], input@).unwrap();
                let m = statement_matches(member_pattern(), seq!["SELECTOR"@, "NAME"@], input@).unwrap();
                let s = statement_matches(set_pattern(), seq!["PROPERTY"@, "VALUE"@, "MEMBER"@], input@).unwrap();
                let a = statement_matches(set_at_pattern(), seq!["PROPERTY"@, "VALUE"@, "AT"@], input@).unwrap();
                lemma_tree_sets_placed(w, u, m, s, a);
            }
            Some(compile_ssm_program(&tree))
        },
        None => None,
    }
}

/// The pattern of an SSM block inside Markdown: `ssm#...#`.
pub open spec fn block_pattern() -> Seq<char> {
    "(ssm\\#)(?<CONTENT>.*?)\\#"@
}

/// The CSS of each program of `rows` (one text per row), joined in order; `None`
/// where one of them could not be read.
pub open spec fn css_of_all(rows: Seq<Seq<Seq<char>>>) -> Option<Seq<char>>
    decreases rows.len(),
{
    if rows.len() == 0 {
        Some(Seq::empty())
    } else {
        match (css_of_all(rows.drop_last()), ssm_css(rows.last()[0])) {
            (Some(a), Some(b)) => Some(a + b),
            _ => None,
        }
    }
}

/// The CSS of all SSM blocks of the Markdown `input`, joined in order.
pub open spec fn ssm_blocks_css(input: Seq<char>) -> Option<Seq<char>> {
    match read_rows(regex_captures(block_pattern(), true, true, seq!["CONTENT"@], input), 1) {
        Some(rows) => css_of_all(rows),
        None => None,
    }
}

proof fn lemma_css_none_extends(rows: Seq<Seq<Seq<char>>>, k: int)
    requires
        0 <= k <= rows.len(),
        css_of_all(rows.take(k)) is None,
    ensures
        css_of_all(rows) is None,
    decreases rows.len() - k,
{
    if k < rows.len() {
        assert(rows.take(k + 1).drop_last() == rows.take(k));
        lemma_css_none_extends(rows, k + 1);
    } else {
        assert(rows.take(k) == rows);
    }
}

/// Whether a paste exports its SSM blocks to everyone: its content says
/// `USE ssm::public`.
pub fn exports_public_ssm(content: &str) -> (r: bool)
    ensures
        r == crate::text::contains(content@, "USE ssm::public"@),
{
    crate::text::contains_exec(content, "USE ssm::public")
}

/// Compiles every SSM block (`ssm#...#`) of the Markdown `input` and joins the CSS;
/// `None` where a pattern could not be used.
pub fn parse_ssm_blocks(input: String) -> (r: Option<String>)
    ensures
        r.deep_view() == ssm_blocks_css(input@),
{
    let groups = names_of("CONTENT", "", "", 1);
    let c = captures_all("(ssm\\#)(?<CONTENT>.*?)\\#", true, true, &groups, input.as_str());
    let rows = match read_rows_exec(c, 1) {
        Some(rows) => rows,
        None => return None,
    };
    let ghost rv = rows.deep_view();
    let mut out: Vec<char> = Vec::new();
    let mut i: usize = 0;
    while i < rows.len()
        invariant
            i <= rows.len(),
            rv == rows.deep_view(),
            complete_rows(regex_captures(block_pattern(), true, true, seq!["CONTENT"@], input@)->0, 1),
            rv == unwrap_rows(regex_captures(block_pattern(), true, true, seq!["CONTENT"@], input@)->0),
            css_of_all(rv.take(i as int)) == Some(out@),
        decreases rows.len() - i,
    {
        let ghost raw = regex_captures(block_pattern(), true, true, seq!["CONTENT"@], input@)->0;
        assert(raw[i as int].len() == 1);
        assert(rv == unwrap_rows(raw));
        assert(rv.len() == raw.len());
        assert(unwrap_rows(raw)[i as int] == unwrap_row(raw[i as int]));
        assert(rv[i as int] == unwrap_row(raw[i as int]));
        assert(rv[i as int].len() == 1);
        assert(rv[i as int][0] == rows@[i as int]@[0]@);
        assert(rv.take(i + 1).drop_last() == rv.take(i as int));
        assert(rv.take(i + 1).last() == rv[i as int]);
        match parse_ssm_program(rows[i][0].clone()) {
            Some(css) => {
                push_str(&mut out, css.as_str());
            },
            None => {
                proof {
                    lemma_css_none_extends(rv, i + 1);
                }
                return None;
            },
        }
        i += 1;
    }
    assert(rv.take(rows.len() as int) == rv);
    Some(string_of(&out))
}

/// A program tree registers each member name once: no two members share a name.
pub proof fn law_member_names_distinct(rows: Seq<Seq<Seq<char>>>)
    ensures
        forall|i: int, j: int|
            0 <= i < j < member_fold(rows).0.len() ==> member_fold(rows).0[i].1 != member_fold(
                rows,
            ).0[j].1,
    decreases rows.len(),
{
    if rows.len() > 0 {
        law_member_names_distinct(rows.drop_last());
        let (m, e) = member_fold(rows.drop_last());
        let r = rows.last();
        if !name_taken(m, r[1]) {
            let m2 = m.push((r[0], r[1]));
            assert forall|i: int, j: int| 0 <= i < j < m2.len() implies m2[i].1 != m2[j].1 by {
                if j == m.len() {
                    assert(m2[i] == m[i]);
                } else {
                    assert(m2[i] == m[i] && m2[j] == m[j]);
                }
            }
        }
    }
}

/// Every `MEMBER` statement either registers a member or is reported as an error,
/// and each error names a member that was registered before.
pub proof fn law_members_accounted(rows: Seq<Seq<Seq<char>>>)
    ensures
        member_fold(rows).0.len() + member_fold(rows).1.len() == rows.len(),
        forall|k: int|
            0 <= k < member_fold(rows).1.len() ==> name_taken(
                member_fold(rows).0,
                #[trigger] member_fold(rows).1[k].1,
            ) && member_fold(rows).1[k].0 == duplicate_member_message(),
    decreases rows.len(),
{
    if rows.len() > 0 {
        law_members_accounted(rows.drop_last());
        let (m, e) = member_fold(rows.drop_last());
        let r = rows.last();
        if !name_taken(m, r[1]) {
            let m2 = m.push((r[0], r[1]));
            assert forall|k: int| 0 <= k < e.len() implies name_taken(m2, #[trigger] e[k].1) by {
                let w = choose|w: int| 0 <= w < m.len() && m[w].1 == e[k].1;
                assert(m2[w] == m[w]);
            }
        }
    }
}

/// The test that a set is for the member `name`.
pub open spec fn is_set_for(name: Seq<char>) -> spec_fn(SetView) -> bool {
    |s: SetView| s.for_member == Some(name)
}

proof fn lemma_sets_for_own_sets(sets: Seq<SetView>, name: Seq<char>)
    ensures
        sets_for(sets, name) == sets_for(sets.filter(is_set_for(name)), name),
    decreases sets.len(),
{
    let pred = is_set_for(name);
    if sets.len() > 0 {
        lemma_sets_for_own_sets(sets.drop_last(), name);
        let rest = sets.drop_last().filter(pred);
        reveal(Seq::filter);
        assert(sets.filter(pred) == if pred(sets.last()) {
            rest.push(sets.last())
        } else {
            rest
        });
        if pred(sets.last()) {
            assert(rest.push(sets.last()).drop_last() =~= rest);
            assert(rest.push(sets.last()).last() == sets.last());
        }
    }
}

/// Only the sets whose `FOR` names a member go into that member's rule: the rule of a
/// member over any sets is its rule over just the sets for it, so a set for another
/// member, or at an animation stage, never puts a declaration into it.
pub proof fn law_member_rule_holds_only_its_sets(m: (Seq<char>, Seq<char>), sets: Seq<SetView>)
    ensures
        member_block(m, sets) == member_block(m, sets.filter(is_set_for(m.1))),
{
    lemma_sets_for_own_sets(sets, m.1);
}

/// A further set for the member `name` adds its declaration `property: value;` after
/// those of the sets before it; a set for another member, or at a stage, adds nothing.
pub proof fn law_member_declarations_follow_own_sets(
    sets: Seq<SetView>,
    s: SetView,
    name: Seq<char>,
)
    ensures
        sets_for(sets.push(s), name) == sets_for(sets, name) + if s.for_member == Some(name) {
            s.property + ": "@ + s.value + ";"@
        } else {
            Seq::<char>::empty()
        },
{
    assert(sets.push(s).drop_last() =~= sets);
}

/// The last `WHEN` statement decides the viewport restriction: a further `WHEN` match
/// makes its restriction the program's, whatever came before.
pub proof fn law_last_when_restricts(
    whens: Seq<Seq<Seq<char>>>,
    w: Seq<Seq<char>>,
    uses: Seq<Seq<Seq<char>>>,
    members: Seq<Seq<Seq<char>>>,
    sets: Seq<Seq<Seq<char>>>,
    set_ats: Seq<Seq<Seq<char>>>,
)
    ensures
        tree_of(whens.push(w), uses, members, sets, set_ats).viewport_restriction == w[0],
        whens.len() == 0 ==> tree_of(whens, uses, members, sets, set_ats).viewport_restriction
            == Seq::<char>::empty(),
{
}

/// The viewport restriction of a program is the `RESTRICTION` of its last `WHEN`
/// match, and none where it has no `WHEN` statement.
pub proof fn law_program_restriction_is_last_when(input: Seq<char>)
    ensures
        ssm_tree(input) matches Some(p) ==> ({
            let w = statement_matches(when_pattern(), seq!["RESTRICTION"@], input)->0;
            &&& w.len() == 0 ==> p.viewport_restriction == Seq::<char>::empty()
            &&& w.len() > 0 ==> p.viewport_restriction == w[w.len() - 1][0]
        }),
{
}

} // verus!
