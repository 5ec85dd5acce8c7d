//! Where the section headers of the system prompt can occur: only in the
//! sections that have something to show, as long as no text the user
//! supplies holds the `## ` that starts a header.
use vstd::prelude::*;

use crate::models::memory::{Memory, MemoryType};
use crate::models::prompt::{Policy, PromptContext, RetrievedChunk};
use crate::services::prompt_builder::{
    any_enabled, chunk_lines, chunk_lines_of, core_principle, entity_lines, enabled_policy_lines,
    lemma_contains_within, lemma_sections_shown, memory_line, memory_lines, policy_line, prompt_parts,
    system_prompt,
};
use crate::text::{contains, join, views};

verus! {

/// No character of `s` is `c`.
pub open spec fn lacks(s: Seq<char>, c: char) -> bool {
    forall|j: int| 0 <= j < s.len() ==> #[trigger] s[j] != c
}

/// The shape of a section header without its line break: `## `, then text
/// with no `#`, none of `*`, `-`, `[`, `]`, `(`, `)`, `:` or a line break,
/// and not ending in a space.
pub open spec fn header_shape(h: Seq<char>) -> bool {
    &&& h.len() >= 13
    &&& h[0] == '#' && h[1] == '#' && h[2] == ' '
    &&& forall|j: int| 2 <= j < h.len() ==> #[trigger] h[j] != '#'
    &&& lacks(h, '*') && lacks(h, '-') && lacks(h, '[') && lacks(h, ']')
    &&& lacks(h, '(') && lacks(h, ')') && lacks(h, ':') && lacks(h, '\n')
    &&& h.last() != ' '
}

/// `h` does not occur in `a + b` when it occurs in neither and the end of
/// `a` cannot begin it: the last `n` characters of `a` hold no `#`, and
/// either they are all of `a` or one of them is not in `h`.
proof fn lemma_concat_left(a: Seq<char>, b: Seq<char>, h: Seq<char>, n: int)
    requires
        h.len() > 0,
        h[0] == '#',
        !contains(a, h),
        !contains(b, h),
        0 <= n <= a.len(),
        forall|j: int| a.len() - n <= j < a.len() ==> #[trigger] a[j] != '#',
        n == a.len() || exists|j: int| a.len() - n <= j < a.len() && #[trigger] lacks(h, a[j]),
    ensures
        !contains(a + b, h),
{
    let s = a + b;
    if contains(s, h) {
        let i = choose|i: int| 0 <= i && i + h.len() <= s.len() && #[trigger] s.subrange(i, i + h.len()) == h;
        if i + h.len() <= a.len() {
            assert(a.subrange(i, i + h.len()) =~= s.subrange(i, i + h.len()));
        } else if i >= a.len() {
            let k = i - a.len();
            assert(b.subrange(k, k + h.len()) =~= s.subrange(i, i + h.len()));
        } else {
            assert(s.subrange(i, i + h.len())[0] == s[i]);
            assert(s[i] == a[i]);
            if n < a.len() && i < a.len() - n {
                let j = choose|j: int| a.len() - n <= j < a.len() && #[trigger] lacks(h, a[j]);
                assert(s.subrange(i, i + h.len())[j - i] == s[j]);
                assert(h[j - i] != a[j]);
            }
        }
    }
}

/// `h` does not occur in `a + b` when it occurs in neither and the start
/// of `b` cannot continue it: its first character is not in `h`, or it is
/// not the last of `h` and the second is not in `h`.
proof fn lemma_concat_right(a: Seq<char>, b: Seq<char>, h: Seq<char>)
    requires
        h.len() > 0,
        !contains(a, h),
        !contains(b, h),
        b.len() >= 1,
        lacks(h, b[0]) || (b.len() >= 2 && b[0] != h.last() && lacks(h, b[1])),
    ensures
        !contains(a + b, h),
{
    let s = a + b;
    if contains(s, h) {
        let i = choose|i: int| 0 <= i && i + h.len() <= s.len() && #[trigger] s.subrange(i, i + h.len()) == h;
        if i + h.len() <= a.len() {
            assert(a.subrange(i, i + h.len()) =~= s.subrange(i, i + h.len()));
        } else if i >= a.len() {
            let k = i - a.len();
            assert(b.subrange(k, k + h.len()) =~= s.subrange(i, i + h.len()));
        } else {
            let k = a.len() - i;
            assert(s.subrange(i, i + h.len())[k] == s[a.len() as int]);
            assert(s[a.len() as int] == b[0]);
            if !lacks(h, b[0]) {
                assert(h[h.len() - 1] == h.last());
                assert(k + 1 < h.len());
                assert(s.subrange(i, i + h.len())[k + 1] == s[a.len() as int + 1]);
                assert(s[a.len() as int + 1] == b[1]);
            }
        }
    }
}

/// A text with no `#` holds no header.
proof fn lemma_hashless(s: Seq<char>, h: Seq<char>)
    requires
        h.len() > 0,
        h[0] == '#',
        lacks(s, '#'),
    ensures
        !contains(s, h),
{
    if contains(s, h) {
        let i = choose|i: int| 0 <= i && i + h.len() <= s.len() && #[trigger] s.subrange(i, i + h.len()) == h;
        assert(s.subrange(i, i + h.len())[0] == s[i]);
    }
}

/// A text that does not hold `## ` holds no header.
proof fn lemma_unmarked(u: Seq<char>, h: Seq<char>)
    requires
        header_shape(h),
        !contains(u, "## "@),
    ensures
        !contains(u, h),
{
    if contains(u, h) {
        reveal_strlit("## ");
        let i: int = 0;
        assert(h.subrange(i, i + "## "@.len()) =~= "## "@);
        crate::services::prompt_builder::lemma_contains_within(u, h, "## "@);
    }
}


/// A header line as the prompt writes it: `##`, then no `#`, then a line
/// break.
pub open spec fn header_line_shape(y: Seq<char>) -> bool {
    &&& y.len() >= 2
    &&& y[0] == '#' && y[1] == '#'
    &&& forall|j: int| 2 <= j < y.len() ==> #[trigger] y[j] != '#'
    &&& y.last() == '\n'
}

/// A header line holds no other header: one that differs from it at the
/// index `d`.
proof fn lemma_other_header(y: Seq<char>, h: Seq<char>, d: int)
    requires
        header_shape(h),
        header_line_shape(y),
        2 <= d < h.len(),
        d < y.len(),
        y[d] != h[d],
    ensures
        !contains(y, h),
{
    if contains(y, h) {
        let i = choose|i: int| 0 <= i && i + h.len() <= y.len() && #[trigger] y.subrange(i, i + h.len()) == h;
        assert(y.subrange(i, i + h.len())[0] == y[i]);
        assert(y.subrange(i, i + h.len())[1] == y[i + 1]);
        assert(i == 0);
        assert(y.subrange(i, i + h.len())[d] == y[d]);
    }
}

/// The four section headers and their lines have the shapes above.
proof fn lemma_header_shapes()
    ensures
        header_shape("## Active Policies"@),
        header_shape("## Known Entities"@),
        header_shape("## Relevant Memories"@),
        header_shape("## Relevant Context"@),
        header_line_shape("## Active Policies\n"@),
        header_line_shape("## Known Entities\n"@),
        header_line_shape("## Relevant Memories\n"@),
        header_line_shape("## Relevant Context\n"@),
        "## Active Policies\n"@ == "## Active Policies"@ + "\n"@,
        "## Known Entities\n"@ == "## Known Entities"@ + "\n"@,
        "## Relevant Memories\n"@ == "## Relevant Memories"@ + "\n"@,
        "## Relevant Context\n"@ == "## Relevant Context"@ + "\n"@,
{
    reveal_strlit("## Active Policies");
    reveal_strlit("## Known Entities");
    reveal_strlit("## Relevant Memories");
    reveal_strlit("## Relevant Context");
    reveal_strlit("## Active Policies\n");
    reveal_strlit("## Known Entities\n");
    reveal_strlit("## Relevant Memories\n");
    reveal_strlit("## Relevant Context\n");
    reveal_strlit("\n");
    assert("## Active Policies\n"@ =~= "## Active Policies"@ + "\n"@);
    assert("## Known Entities\n"@ =~= "## Known Entities"@ + "\n"@);
    assert("## Relevant Memories\n"@ =~= "## Relevant Memories"@ + "\n"@);
    assert("## Relevant Context\n"@ =~= "## Relevant Context"@ + "\n"@);
}


/// The text does not hold `## `, the mark that starts a header.
pub open spec fn unmarked(s: Seq<char>) -> bool {
    !contains(s, "## "@)
}

/// Neither the name nor the description of the policy holds `## `.
pub open spec fn policy_unmarked(p: Policy) -> bool {
    unmarked(p.name@) && (p.description matches Some(d) ==> unmarked(d@))
}

/// Neither the salience nor the content of the memory holds `## `.
pub open spec fn memory_unmarked(m: Memory) -> bool {
    unmarked(m.salience_score@) && unmarked(m.content@)
}

/// Neither the source type, the score nor the content of the chunk holds `## `.
pub open spec fn chunk_unmarked(c: RetrievedChunk) -> bool {
    unmarked(c.source_type@) && unmarked(c.score@) && unmarked(c.content@)
}

/// No text of the context that the prompt shows holds `## `.
pub open spec fn context_unmarked(ctx: PromptContext) -> bool {
    &&& forall|i: int| 0 <= i < ctx.active_policies@.len() ==> policy_unmarked(#[trigger] ctx.active_policies@[i])
    &&& forall|i: int| 0 <= i < ctx.entity_names@.len() ==> unmarked(#[trigger] ctx.entity_names@[i]@)
    &&& forall|i: int| 0 <= i < ctx.memories@.len() ==> memory_unmarked(#[trigger] ctx.memories@[i])
    &&& forall|i: int| 0 <= i < ctx.chunks@.len() ==> chunk_unmarked(#[trigger] ctx.chunks@[i])
}

proof fn lemma_policy_line(p: Policy, h: Seq<char>)
    requires
        header_shape(h),
        policy_unmarked(p),
    ensures
        !contains(policy_line(p), h),
        policy_line(p).len() >= 1,
        policy_line(p)[0] == '-',
{
    reveal_strlit("- **");
    reveal_strlit("**: ");
    reveal_strlit("\n");
    reveal_strlit("(no description)");
    let a0 = "- **"@;
    lemma_hashless(a0, h);
    lemma_unmarked(p.name@, h);
    lemma_concat_left(a0, p.name@, h, a0.len() as int);
    let a1 = a0 + p.name@;
    lemma_hashless("**: "@, h);
    lemma_concat_right(a1, "**: "@, h);
    let a2 = a1 + "**: "@;
    let d = match p.description {
        Some(x) => x@,
        None => "(no description)"@,
    };
    match p.description {
        Some(x) => lemma_unmarked(x@, h),
        None => lemma_hashless("(no description)"@, h),
    }
    assert(a2[a2.len() - 4] == '*');
    assert(lacks(h, a2[a2.len() - 4]));
    lemma_concat_left(a2, d, h, 4);
    let a3 = a2 + d;
    lemma_hashless("\n"@, h);
    lemma_concat_right(a3, "\n"@, h);
    assert(policy_line(p) == a3 + "\n"@);
    assert(policy_line(p)[0] == a0[0]);
}

proof fn lemma_policy_lines(ps: Seq<Policy>, h: Seq<char>)
    requires
        header_shape(h),
        forall|i: int| 0 <= i < ps.len() ==> policy_unmarked(#[trigger] ps[i]),
    ensures
        !contains(enabled_policy_lines(ps), h),
    decreases ps.len(),
{
    if ps.len() == 0 {
        lemma_hashless(Seq::empty(), h);
    } else {
        let init = ps.drop_last();
        assert forall|i: int| 0 <= i < init.len() implies policy_unmarked(#[trigger] init[i]) by {
            assert(init[i] == ps[i]);
        }
        lemma_policy_lines(init, h);
        if ps.last().enabled {
            assert(ps.last() == ps[ps.len() - 1]);
            lemma_policy_line(ps.last(), h);
            lemma_concat_right(enabled_policy_lines(init), policy_line(ps.last()), h);
        }
    }
}

proof fn lemma_entity_lines(names: Seq<Seq<char>>, h: Seq<char>)
    requires
        header_shape(h),
        forall|i: int| 0 <= i < names.len() ==> unmarked(#[trigger] names[i]),
    ensures
        !contains(entity_lines(names), h),
    decreases names.len(),
{
    reveal_strlit("- ");
    reveal_strlit("\n");
    if names.len() == 0 {
        lemma_hashless(Seq::empty(), h);
    } else {
        let init = names.drop_last();
        assert forall|i: int| 0 <= i < init.len() implies unmarked(#[trigger] init[i]) by {
            assert(init[i] == names[i]);
        }
        lemma_entity_lines(init, h);
        let l = entity_lines(init);
        lemma_hashless("- "@, h);
        lemma_concat_right(l, "- "@, h);
        let a = l + "- "@;
        assert(names.last() == names[names.len() - 1]);
        lemma_unmarked(names.last(), h);
        assert(a[a.len() - 2] == '-');
        assert(lacks(h, a[a.len() - 2]));
        lemma_concat_left(a, names.last(), h, 2);
        lemma_hashless("\n"@, h);
        lemma_concat_right(a + names.last(), "\n"@, h);
    }
}


/// The names of the memory types hold no `#`.
proof fn lemma_memory_type_name_hashless(k: MemoryType)
    ensures
        lacks(k.name(), '#'),
{
    match k {
        MemoryType::Fact => reveal_strlit("fact"),
        MemoryType::Preference => reveal_strlit("preference"),
        MemoryType::Goal => reveal_strlit("goal"),
        MemoryType::Belief => reveal_strlit("belief"),
        MemoryType::Skill => reveal_strlit("skill"),
        MemoryType::Experience => reveal_strlit("experience"),
        MemoryType::Relationship => reveal_strlit("relationship"),
        MemoryType::Routine => reveal_strlit("routine"),
    }
}

proof fn lemma_memory_line(m: Memory, h: Seq<char>)
    requires
        header_shape(h),
        memory_unmarked(m),
    ensures
        !contains(memory_line(m), h),
        memory_line(m).len() >= 1,
        memory_line(m)[0] == '-',
{
    reveal_strlit("- [");
    reveal_strlit("] (salience ");
    reveal_strlit(") ");
    reveal_strlit("\n");
    let a0 = "- ["@;
    lemma_hashless(a0, h);
    lemma_memory_type_name_hashless(m.kind);
    lemma_hashless(m.kind.name(), h);
    lemma_concat_left(a0, m.kind.name(), h, a0.len() as int);
    let a1 = a0 + m.kind.name();
    lemma_hashless("] (salience "@, h);
    lemma_concat_right(a1, "] (salience "@, h);
    let a2 = a1 + "] (salience "@;
    lemma_unmarked(m.salience_score@, h);
    assert(a2[a2.len() - 12] == ']');
    assert(lacks(h, a2[a2.len() - 12]));
    lemma_concat_left(a2, m.salience_score@, h, 12);
    let a3 = a2 + m.salience_score@;
    lemma_hashless(") "@, h);
    lemma_concat_right(a3, ") "@, h);
    let a4 = a3 + ") "@;
    lemma_unmarked(m.content@, h);
    assert(a4[a4.len() - 2] == ')');
    assert(lacks(h, a4[a4.len() - 2]));
    lemma_concat_left(a4, m.content@, h, 2);
    lemma_hashless("\n"@, h);
    lemma_concat_right(a4 + m.content@, "\n"@, h);
    assert(memory_line(m) == a4 + m.content@ + "\n"@);
    assert(memory_line(m)[0] == a0[0]);
}

proof fn lemma_memory_lines(ms: Seq<Memory>, h: Seq<char>)
    requires
        header_shape(h),
        forall|i: int| 0 <= i < ms.len() ==> memory_unmarked(#[trigger] ms[i]),
    ensures
        !contains(memory_lines(ms), h),
    decreases ms.len(),
{
    if ms.len() == 0 {
        lemma_hashless(Seq::empty(), h);
    } else {
        let init = ms.drop_last();
        assert forall|i: int| 0 <= i < init.len() implies memory_unmarked(#[trigger] init[i]) by {
            assert(init[i] == ms[i]);
        }
        lemma_memory_lines(init, h);
        assert(ms.last() == ms[ms.len() - 1]);
        lemma_memory_line(ms.last(), h);
        lemma_concat_right(memory_lines(init), memory_line(ms.last()), h);
    }
}

proof fn lemma_chunk_line(c: RetrievedChunk, h: Seq<char>)
    requires
        header_shape(h),
        chunk_unmarked(c),
    ensures
        !contains(chunk_lines_of(c), h),
        chunk_lines_of(c).len() >= 1,
        chunk_lines_of(c).last() == '\n',
{
    reveal_strlit("### Source: ");
    reveal_strlit(" (score ");
    reveal_strlit(")\n");
    reveal_strlit("\n");
    let a0 = "### Source: "@;
    if contains(a0, h) {
        let i = choose|i: int| 0 <= i && i + h.len() <= a0.len() && #[trigger] a0.subrange(i, i + h.len()) == h;
    }
    lemma_unmarked(c.source_type@, h);
    assert(a0[a0.len() - 2] == ':');
    assert(lacks(h, a0[a0.len() - 2]));
    lemma_concat_left(a0, c.source_type@, h, 8);
    let a1 = a0 + c.source_type@;
    lemma_hashless(" (score "@, h);
    assert(" (score "@[0] != h.last());
    lemma_concat_right(a1, " (score "@, h);
    let a2 = a1 + " (score "@;
    lemma_unmarked(c.score@, h);
    assert(a2[a2.len() - 7] == '(');
    assert(lacks(h, a2[a2.len() - 7]));
    lemma_concat_left(a2, c.score@, h, 8);
    let a3 = a2 + c.score@;
    lemma_hashless(")\n"@, h);
    lemma_concat_right(a3, ")\n"@, h);
    let a4 = a3 + ")\n"@;
    lemma_unmarked(c.content@, h);
    assert(a4[a4.len() - 2] == ')');
    assert(lacks(h, a4[a4.len() - 2]));
    lemma_concat_left(a4, c.content@, h, 2);
    lemma_hashless("\n"@, h);
    lemma_concat_right(a4 + c.content@, "\n"@, h);
    assert(chunk_lines_of(c) == a4 + c.content@ + "\n"@);
}

proof fn lemma_chunk_lines(cs: Seq<RetrievedChunk>, h: Seq<char>)
    requires
        header_shape(h),
        forall|i: int| 0 <= i < cs.len() ==> chunk_unmarked(#[trigger] cs[i]),
    ensures
        !contains(chunk_lines(cs), h),
        chunk_lines(cs).len() == 0 || chunk_lines(cs).last() == '\n',
    decreases cs.len(),
{
    if cs.len() == 0 {
        lemma_hashless(Seq::empty(), h);
    } else {
        let init = cs.drop_last();
        assert forall|i: int| 0 <= i < init.len() implies chunk_unmarked(#[trigger] init[i]) by {
            assert(init[i] == cs[i]);
        }
        lemma_chunk_lines(init, h);
        assert(cs.last() == cs[cs.len() - 1]);
        lemma_chunk_line(cs.last(), h);
        let l = chunk_lines(init);
        if l.len() == 0 {
            lemma_concat_left(l, chunk_lines_of(cs.last()), h, 0);
        } else {
            assert(l[l.len() - 1] == l.last());
            assert(lacks(h, l[l.len() - 1]));
            lemma_concat_left(l, chunk_lines_of(cs.last()), h, 1);
        }
        let whole = l + chunk_lines_of(cs.last());
        assert(whole[whole.len() - 1] == chunk_lines_of(cs.last()).last());
    }
}


proof fn lemma_join_unmarked(parts: Seq<Seq<char>>, h: Seq<char>)
    requires
        header_shape(h),
        forall|k: int| 0 <= k < parts.len() ==> !contains(#[trigger] parts[k], h),
    ensures
        !contains(join(parts, "\n\n"@), h),
    decreases parts.len(),
{
    reveal_strlit("\n\n");
    if parts.len() == 0 {
        lemma_hashless(Seq::empty(), h);
    } else if parts.len() > 1 {
        let init = parts.drop_last();
        assert forall|k: int| 0 <= k < init.len() implies !contains(#[trigger] init[k], h) by {
            assert(init[k] == parts[k]);
        }
        lemma_join_unmarked(init, h);
        let sep = "\n\n"@;
        lemma_hashless(sep, h);
        lemma_concat_right(join(init, sep), sep, h);
        let a = join(init, sep) + sep;
        assert(a[a.len() - 1] == '\n');
        assert(lacks(h, a[a.len() - 1]));
        assert(parts.last() == parts[parts.len() - 1]);
        lemma_concat_left(a, parts.last(), h, 2);
    }
}

/// A section, its header line and then its lines, holds `h` only if its
/// header line does.
proof fn lemma_section(y: Seq<char>, body: Seq<char>, h: Seq<char>)
    requires
        header_shape(h),
        header_line_shape(y),
        !contains(y, h),
        !contains(body, h),
    ensures
        !contains(y + body, h),
{
    assert(y[y.len() - 1] == '\n');
    assert(lacks(h, y[y.len() - 1]));
    lemma_concat_left(y, body, h, 1);
}

/// Without `## ` in the context's texts, a header occurs in the prompt only
/// where the header line of a section that is shown holds it.
proof fn lemma_prompt_unmarked(ctx: PromptContext, h: Seq<char>)
    requires
        header_shape(h),
        context_unmarked(ctx),
        any_enabled(ctx.active_policies@) ==> !contains("## Active Policies\n"@, h),
        ctx.entity_names@.len() > 0 ==> !contains("## Known Entities\n"@, h),
        ctx.memories@.len() > 0 ==> !contains("## Relevant Memories\n"@, h),
        ctx.chunks@.len() > 0 ==> !contains("## Relevant Context\n"@, h),
    ensures
        !contains(system_prompt(ctx), h),
{
    lemma_header_shapes();
    reveal_strlit("You are Personal Context Core, a local-first personal AI assistant.\nPrinciple: Local by default, cloud by exception, user visible always.\nYou have access to the user's personal memory and context stored on their device.\nRespect privacy. Never speculate about sensitive data. Be concise and honest.");
    assert(lacks(core_principle(), '#'));
    lemma_hashless(core_principle(), h);
    let ps = ctx.active_policies@;
    let names = views(ctx.entity_names@);
    let sa = "## Active Policies\n"@ + enabled_policy_lines(ps);
    let se = "## Known Entities\n"@ + entity_lines(names);
    let sm = "## Relevant Memories\n"@ + memory_lines(ctx.memories@);
    let sc = "## Relevant Context\n"@ + chunk_lines(ctx.chunks@);
    if any_enabled(ps) {
        lemma_policy_lines(ps, h);
        lemma_section("## Active Policies\n"@, enabled_policy_lines(ps), h);
    }
    if ctx.entity_names@.len() > 0 {
        assert forall|i: int| 0 <= i < names.len() implies unmarked(#[trigger] names[i]) by {
            assert(names[i] == ctx.entity_names@[i]@);
        }
        lemma_entity_lines(names, h);
        lemma_section("## Known Entities\n"@, entity_lines(names), h);
    }
    if ctx.memories@.len() > 0 {
        lemma_memory_lines(ctx.memories@, h);
        lemma_section("## Relevant Memories\n"@, memory_lines(ctx.memories@), h);
    }
    if ctx.chunks@.len() > 0 {
        lemma_chunk_lines(ctx.chunks@, h);
        lemma_section("## Relevant Context\n"@, chunk_lines(ctx.chunks@), h);
    }
    let p0 = seq![core_principle()];
    let p1 = if any_enabled(ps) { p0.push(sa) } else { p0 };
    let p2 = if ctx.entity_names@.len() > 0 { p1.push(se) } else { p1 };
    let p3 = if ctx.memories@.len() > 0 { p2.push(sm) } else { p2 };
    let p4 = if ctx.chunks@.len() > 0 { p3.push(sc) } else { p3 };
    assert(prompt_parts(ctx) == p4);
    assert forall|k: int| 0 <= k < p1.len() implies !contains(#[trigger] p1[k], h) by {
        if k < p0.len() {
            assert(p1[k] == p0[k]);
        }
    }
    assert forall|k: int| 0 <= k < p2.len() implies !contains(#[trigger] p2[k], h) by {
        if k < p1.len() {
            assert(p2[k] == p1[k]);
        }
    }
    assert forall|k: int| 0 <= k < p3.len() implies !contains(#[trigger] p3[k], h) by {
        if k < p2.len() {
            assert(p3[k] == p2[k]);
        }
    }
    assert forall|k: int| 0 <= k < p4.len() implies !contains(#[trigger] p4[k], h) by {
        if k < p3.len() {
            assert(p4[k] == p3[k]);
        }
    }
    lemma_join_unmarked(p4, h);
}

proof fn lemma_header_in_its_line(h: Seq<char>, sp: Seq<char>)
    requires
        contains(sp, h + "\n"@),
    ensures
        contains(sp, h),
{
    let i: int = 0;
    assert((h + "\n"@).subrange(i, i + h.len()) =~= h);
    lemma_contains_within(sp, h + "\n"@, h);
}

/// Where no text of the context holds `## `, each section header is in the
/// system prompt exactly when its section has something to show: an enabled
/// policy, an entity name, a memory or a chunk.
pub proof fn lemma_sections_only_with_content(ctx: PromptContext)
    requires
        context_unmarked(ctx),
    ensures
        contains(system_prompt(ctx), "## Active Policies"@) <==> any_enabled(ctx.active_policies@),
        contains(system_prompt(ctx), "## Known Entities"@) <==> ctx.entity_names@.len() > 0,
        contains(system_prompt(ctx), "## Relevant Memories"@) <==> ctx.memories@.len() > 0,
        contains(system_prompt(ctx), "## Relevant Context"@) <==> ctx.chunks@.len() > 0,
{
    lemma_header_shapes();
    reveal_strlit("## Active Policies");
    reveal_strlit("## Known Entities");
    reveal_strlit("## Relevant Memories");
    reveal_strlit("## Relevant Context");
    reveal_strlit("## Active Policies\n");
    reveal_strlit("## Known Entities\n");
    reveal_strlit("## Relevant Memories\n");
    reveal_strlit("## Relevant Context\n");
    let sp = system_prompt(ctx);
    let (ha, hk, hm, hc) = ("## Active Policies"@, "## Known Entities"@, "## Relevant Memories"@, "## Relevant Context"@);
    let (ya, yk, ym, yc) = (
        "## Active Policies\n"@,
        "## Known Entities\n"@,
        "## Relevant Memories\n"@,
        "## Relevant Context\n"@,
    );
    // Each present section shows its header.
    lemma_sections_shown(ctx);
    if any_enabled(ctx.active_policies@) {
        lemma_header_in_its_line(ha, sp);
    }
    if ctx.entity_names@.len() > 0 {
        lemma_header_in_its_line(hk, sp);
    }
    if ctx.memories@.len() > 0 {
        lemma_header_in_its_line(hm, sp);
    }
    if ctx.chunks@.len() > 0 {
        lemma_header_in_its_line(hc, sp);
    }
    // No other header line holds a header.
    lemma_other_header(yk, ha, 3);
    lemma_other_header(ym, ha, 3);
    lemma_other_header(yc, ha, 3);
    lemma_other_header(ya, hk, 3);
    lemma_other_header(ym, hk, 3);
    lemma_other_header(yc, hk, 3);
    lemma_other_header(ya, hm, 3);
    lemma_other_header(yk, hm, 3);
    lemma_other_header(yc, hm, 12);
    lemma_other_header(ya, hc, 3);
    lemma_other_header(yk, hc, 3);
    lemma_other_header(ym, hc, 12);
    if !any_enabled(ctx.active_policies@) {
        lemma_prompt_unmarked(ctx, ha);
    }
    if ctx.entity_names@.len() == 0 {
        lemma_prompt_unmarked(ctx, hk);
    }
    if ctx.memories@.len() == 0 {
        lemma_prompt_unmarked(ctx, hm);
    }
    if ctx.chunks@.len() == 0 {
        lemma_prompt_unmarked(ctx, hc);
    }
}

} // verus!
