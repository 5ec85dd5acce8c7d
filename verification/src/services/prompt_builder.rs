use vstd::prelude::*;

use crate::models::memory::Memory;
use crate::models::prompt::{Policy, PromptContext, RetrievedChunk};
use crate::text::{append, contains, join, join_strings, starts_with, views};

verus! {

/// The opening of every system prompt.
pub open spec fn core_principle() -> Seq<char> {
    "You are Personal Context Core, a local-first personal AI assistant.\nPrinciple: Local by default, cloud by exception, user visible always.\nYou have access to the user's personal memory and context stored on their device.\nRespect privacy. Never speculate about sensitive data. Be concise and honest."@
}

/// `- **name**: description` for a policy, with `(no description)` where it
/// has none.
pub open spec fn policy_line(p: Policy) -> Seq<char> {
    "- **"@ + p.name@ + "**: "@ + match p.description {
        Some(d) => d@,
        None => "(no description)"@,
    } + "\n"@
}

/// The lines of the enabled policies, in order.
pub open spec fn enabled_policy_lines(ps: Seq<Policy>) -> Seq<char>
    decreases ps.len(),
{
    if ps.len() == 0 {
        Seq::empty()
    } else if ps.last().enabled {
        enabled_policy_lines(ps.drop_last()) + policy_line(ps.last())
    } else {
        enabled_policy_lines(ps.drop_last())
    }
}

/// `- name` lines for the entity names.
pub open spec fn entity_lines(names: Seq<Seq<char>>) -> Seq<char>
    decreases names.len(),
{
    if names.len() == 0 {
        Seq::empty()
    } else {
        entity_lines(names.drop_last()) + "- "@ + names.last() + "\n"@
    }
}

/// `- [kind] (salience s) content` for a memory.
pub open spec fn memory_line(m: Memory) -> Seq<char> {
    "- ["@ + m.kind.name() + "] (salience "@ + m.salience_score@ + ") "@ + m.content@ + "\n"@
}

pub open spec fn memory_lines(ms: Seq<Memory>) -> Seq<char>
    decreases ms.len(),
{
    if ms.len() == 0 {
        Seq::empty()
    } else {
        memory_lines(ms.drop_last()) + memory_line(ms.last())
    }
}

/// `### Source: type (score s)` and the passage, for a chunk.
pub open spec fn chunk_lines_of(c: RetrievedChunk) -> Seq<char> {
    "### Source: "@ + c.source_type@ + " (score "@ + c.score@ + ")\n"@ + c.content@ + "\n"@
}

pub open spec fn chunk_lines(cs: Seq<RetrievedChunk>) -> Seq<char>
    decreases cs.len(),
{
    if cs.len() == 0 {
        Seq::empty()
    } else {
        chunk_lines(cs.drop_last()) + chunk_lines_of(cs.last())
    }
}

/// Some policy is enabled.
pub open spec fn any_enabled(ps: Seq<Policy>) -> bool {
    exists|i: int| 0 <= i < ps.len() && #[trigger] ps[i].enabled
}

/// The parts of the system prompt: the core principle, then a section for
/// each of enabled policies, entity names, memories and chunks that there are.
pub open spec fn prompt_parts(ctx: PromptContext) -> Seq<Seq<char>> {
    let p0 = seq![core_principle()];
    let p1 = if any_enabled(ctx.active_policies@) {
        p0.push("## Active Policies\n"@ + enabled_policy_lines(ctx.active_policies@))
    } else {
        p0
    };
    let p2 = if ctx.entity_names@.len() > 0 {
        p1.push("## Known Entities\n"@ + entity_lines(views(ctx.entity_names@)))
    } else {
        p1
    };
    let p3 = if ctx.memories@.len() > 0 {
        p2.push("## Relevant Memories\n"@ + memory_lines(ctx.memories@))
    } else {
        p2
    };
    if ctx.chunks@.len() > 0 {
        p3.push("## Relevant Context\n"@ + chunk_lines(ctx.chunks@))
    } else {
        p3
    }
}

/// The system prompt: its parts joined by blank lines.
pub open spec fn system_prompt(ctx: PromptContext) -> Seq<char> {
    join(prompt_parts(ctx), "\n\n"@)
}

proof fn lemma_join_starts_with_first(parts: Seq<Seq<char>>, sep: Seq<char>)
    requires
        parts.len() > 0,
    ensures
        starts_with(join(parts, sep), parts[0]),
    decreases parts.len(),
{
    if parts.len() > 1 {
        lemma_join_starts_with_first(parts.drop_last(), sep);
        let j = join(parts.drop_last(), sep);
        assert((j + sep + parts.last()).subrange(0, parts[0].len() as int) =~= j.subrange(0, parts[0].len() as int));
    } else {
        assert(join(parts, sep).subrange(0, parts[0].len() as int) =~= parts[0]);
    }
}

/// Every system prompt opens with the core principle, whatever the context
/// holds.
pub proof fn lemma_prompt_opens_with_principle(ctx: PromptContext)
    ensures
        starts_with(system_prompt(ctx), core_principle()),
{
    let p = prompt_parts(ctx);
    assert(p.len() > 0 && p[0] == core_principle());
    lemma_join_starts_with_first(p, "\n\n"@);
}

/// The two policy lists show the same: the same length, and at each place
/// the same enabled flag, name and description.
pub open spec fn policies_show_alike(a: Seq<Policy>, b: Seq<Policy>) -> bool {
    &&& a.len() == b.len()
    &&& forall|i: int| 0 <= i < a.len() ==> {
        &&& #[trigger] a[i].enabled == b[i].enabled
        &&& a[i].name@ == b[i].name@
        &&& policy_line(a[i]) == policy_line(b[i])
    }
}

/// The two memory lists show the same: the same length, and at each place
/// the same kind, salience and content.
pub open spec fn memories_show_alike(a: Seq<Memory>, b: Seq<Memory>) -> bool {
    &&& a.len() == b.len()
    &&& forall|i: int| 0 <= i < a.len() ==> {
        &&& #[trigger] a[i].kind == b[i].kind
        &&& a[i].salience_score@ == b[i].salience_score@
        &&& a[i].content@ == b[i].content@
    }
}

/// The two chunk lists show the same: the same length, and at each place
/// the same source type, score and content.
pub open spec fn chunks_show_alike(a: Seq<RetrievedChunk>, b: Seq<RetrievedChunk>) -> bool {
    &&& a.len() == b.len()
    &&& forall|i: int| 0 <= i < a.len() ==> {
        &&& #[trigger] a[i].source_type@ == b[i].source_type@
        &&& a[i].score@ == b[i].score@
        &&& a[i].content@ == b[i].content@
    }
}

proof fn lemma_policy_lines_alike(a: Seq<Policy>, b: Seq<Policy>)
    requires
        policies_show_alike(a, b),
    ensures
        enabled_policy_lines(a) == enabled_policy_lines(b),
        any_enabled(a) == any_enabled(b),
    decreases a.len(),
{
    if a.len() > 0 {
        let (ra, rb) = (a.drop_last(), b.drop_last());
        assert forall|i: int| 0 <= i < ra.len() implies {
            &&& #[trigger] ra[i].enabled == rb[i].enabled
            &&& ra[i].name@ == rb[i].name@
            &&& policy_line(ra[i]) == policy_line(rb[i])
        } by {
            assert(ra[i] == a[i] && rb[i] == b[i]);
        }
        lemma_policy_lines_alike(ra, rb);
        assert(a.last() == a[a.len() - 1] && b.last() == b[b.len() - 1]);
    }
    if any_enabled(a) {
        let i = choose|i: int| 0 <= i < a.len() && #[trigger] a[i].enabled;
        assert(b[i].enabled);
    }
    if any_enabled(b) {
        let i = choose|i: int| 0 <= i < b.len() && #[trigger] b[i].enabled;
        assert(a[i].enabled);
    }
}

proof fn lemma_memory_lines_alike(a: Seq<Memory>, b: Seq<Memory>)
    requires
        memories_show_alike(a, b),
    ensures
        memory_lines(a) == memory_lines(b),
    decreases a.len(),
{
    if a.len() > 0 {
        let (ra, rb) = (a.drop_last(), b.drop_last());
        assert forall|i: int| 0 <= i < ra.len() implies {
            &&& #[trigger] ra[i].kind == rb[i].kind
            &&& ra[i].salience_score@ == rb[i].salience_score@
            &&& ra[i].content@ == rb[i].content@
        } by {
            assert(ra[i] == a[i] && rb[i] == b[i]);
        }
        lemma_memory_lines_alike(ra, rb);
        assert(a.last() == a[a.len() - 1] && b.last() == b[b.len() - 1]);
        assert(memory_line(a.last()) == memory_line(b.last()));
    }
}

proof fn lemma_chunk_lines_alike(a: Seq<RetrievedChunk>, b: Seq<RetrievedChunk>)
    requires
        chunks_show_alike(a, b),
    ensures
        chunk_lines(a) == chunk_lines(b),
    decreases a.len(),
{
    if a.len() > 0 {
        let (ra, rb) = (a.drop_last(), b.drop_last());
        assert forall|i: int| 0 <= i < ra.len() implies {
            &&& #[trigger] ra[i].source_type@ == rb[i].source_type@
            &&& ra[i].score@ == rb[i].score@
            &&& ra[i].content@ == rb[i].content@
        } by {
            assert(ra[i] == a[i] && rb[i] == b[i]);
        }
        lemma_chunk_lines_alike(ra, rb);
        assert(a.last() == a[a.len() - 1] && b.last() == b[b.len() - 1]);
        assert(chunk_lines_of(a.last()) == chunk_lines_of(b.last()));
    }
}

/// The system prompt reads only what it shows: two contexts whose policies
/// agree on enabled flag, name and description, whose entity names are the
/// same, whose memories agree on kind, salience and content and whose chunks
/// agree on source type, score and content give the same prompt, whatever
/// their conversations, identifiers, rules, sources or timestamps.
pub proof fn lemma_prompt_reads_only_shown_fields(a: PromptContext, b: PromptContext)
    requires
        policies_show_alike(a.active_policies@, b.active_policies@),
        views(a.entity_names@) == views(b.entity_names@),
        memories_show_alike(a.memories@, b.memories@),
        chunks_show_alike(a.chunks@, b.chunks@),
    ensures
        system_prompt(a) == system_prompt(b),
{
    lemma_policy_lines_alike(a.active_policies@, b.active_policies@);
    lemma_memory_lines_alike(a.memories@, b.memories@);
    lemma_chunk_lines_alike(a.chunks@, b.chunks@);
    assert(a.entity_names@.len() == views(a.entity_names@).len());
    assert(b.entity_names@.len() == views(b.entity_names@).len());
    assert(prompt_parts(a) == prompt_parts(b));
}

pub(crate) proof fn lemma_contains_within(hay: Seq<char>, mid: Seq<char>, needle: Seq<char>)
    requires
        contains(hay, mid),
        contains(mid, needle),
    ensures
        contains(hay, needle),
{
    let i = choose|i: int| 0 <= i && i + mid.len() <= hay.len() && #[trigger] hay.subrange(i, i + mid.len()) == mid;
    let j = choose|j: int| 0 <= j && j + needle.len() <= mid.len() && #[trigger] mid.subrange(j, j + needle.len()) == needle;
    assert(hay.subrange(i + j, i + j + needle.len()) =~= mid.subrange(j, j + needle.len()));
}

proof fn lemma_join_contains_part(parts: Seq<Seq<char>>, sep: Seq<char>, k: int)
    requires
        0 <= k < parts.len(),
    ensures
        contains(join(parts, sep), parts[k]),
    decreases parts.len(),
{
    let needle = parts[k];
    if parts.len() == 1 {
        let i: int = 0;
        assert(join(parts, sep).subrange(i, i + needle.len()) =~= needle);
    } else {
        let init = join(parts.drop_last(), sep);
        let whole = init + sep + parts.last();
        assert(join(parts, sep) == whole);
        if k == parts.len() - 1 {
            let i: int = (init.len() + sep.len()) as int;
            assert(whole.subrange(i, i + needle.len()) =~= needle);
        } else {
            lemma_join_contains_part(parts.drop_last(), sep, k);
            assert(parts.drop_last()[k] == needle);
            let i = choose|i: int| 0 <= i && i + needle.len() <= init.len() && #[trigger] init.subrange(i, i + needle.len()) == needle;
            assert(whole.subrange(i, i + needle.len()) =~= init.subrange(i, i + needle.len()));
        }
    }
}

proof fn lemma_section_shown(ctx: PromptContext, k: int, header: Seq<char>, body: Seq<char>)
    requires
        0 <= k < prompt_parts(ctx).len(),
        prompt_parts(ctx)[k] == header + body,
    ensures
        contains(system_prompt(ctx), header),
        contains(system_prompt(ctx), header + body),
{
    lemma_join_contains_part(prompt_parts(ctx), "\n\n"@, k);
    let i: int = 0;
    assert((header + body).subrange(i, i + header.len()) =~= header);
    lemma_contains_within(system_prompt(ctx), header + body, header);
}

/// Each section's header is in the prompt whenever there is something to
/// show under it: an enabled policy, an entity name, a memory or a chunk.
pub proof fn lemma_sections_shown(ctx: PromptContext)
    ensures
        any_enabled(ctx.active_policies@) ==> contains(system_prompt(ctx), "## Active Policies\n"@),
        ctx.entity_names@.len() > 0 ==> contains(system_prompt(ctx), "## Known Entities\n"@),
        ctx.memories@.len() > 0 ==> contains(system_prompt(ctx), "## Relevant Memories\n"@),
        ctx.chunks@.len() > 0 ==> contains(system_prompt(ctx), "## Relevant Context\n"@),
        any_enabled(ctx.active_policies@) ==> contains(
            system_prompt(ctx),
            "## Active Policies\n"@ + enabled_policy_lines(ctx.active_policies@),
        ),
        ctx.entity_names@.len() > 0 ==> contains(
            system_prompt(ctx),
            "## Known Entities\n"@ + entity_lines(views(ctx.entity_names@)),
        ),
        ctx.memories@.len() > 0 ==> contains(system_prompt(ctx), "## Relevant Memories\n"@ + memory_lines(ctx.memories@)),
        ctx.chunks@.len() > 0 ==> contains(system_prompt(ctx), "## Relevant Context\n"@ + chunk_lines(ctx.chunks@)),
{
    let parts = prompt_parts(ctx);
    let n = parts.len() as int;
    if ctx.chunks@.len() > 0 {
        lemma_section_shown(ctx, n - 1, "## Relevant Context\n"@, chunk_lines(ctx.chunks@));
    }
    let p3 = if ctx.chunks@.len() > 0 { parts.drop_last() } else { parts };
    assert(p3.len() >= 1);
    if ctx.memories@.len() > 0 {
        assert(p3[p3.len() - 1] == parts[p3.len() - 1]);
        lemma_section_shown(ctx, p3.len() - 1, "## Relevant Memories\n"@, memory_lines(ctx.memories@));
    }
    let p2 = if ctx.memories@.len() > 0 { p3.drop_last() } else { p3 };
    if ctx.entity_names@.len() > 0 {
        assert(p2[p2.len() - 1] == parts[p2.len() - 1]);
        lemma_section_shown(ctx, p2.len() - 1, "## Known Entities\n"@, entity_lines(views(ctx.entity_names@)));
    }
    let p1 = if ctx.entity_names@.len() > 0 { p2.drop_last() } else { p2 };
    if any_enabled(ctx.active_policies@) {
        assert(p1[1] == parts[1]);
        lemma_section_shown(ctx, 1, "## Active Policies\n"@, enabled_policy_lines(ctx.active_policies@));
    }
}

proof fn lemma_holds_suffix(a: Seq<char>, b: Seq<char>)
    ensures
        contains(a + b, b),
{
    let i: int = a.len() as int;
    assert((a + b).subrange(i, i + b.len()) =~= b);
}

proof fn lemma_holds_prefix(a: Seq<char>, b: Seq<char>)
    ensures
        contains(a + b, a),
{
    let i: int = 0;
    assert((a + b).subrange(i, i + a.len()) =~= a);
}

proof fn lemma_policy_lines_hold(ps: Seq<Policy>, i: int)
    requires
        0 <= i < ps.len(),
        ps[i].enabled,
    ensures
        contains(enabled_policy_lines(ps), policy_line(ps[i])),
    decreases ps.len(),
{
    let init = ps.drop_last();
    if i == ps.len() - 1 {
        lemma_holds_suffix(enabled_policy_lines(init), policy_line(ps.last()));
    } else {
        assert(init[i] == ps[i]);
        lemma_policy_lines_hold(init, i);
        if ps.last().enabled {
            lemma_holds_prefix(enabled_policy_lines(init), policy_line(ps.last()));
            lemma_contains_within(enabled_policy_lines(ps), enabled_policy_lines(init), policy_line(ps[i]));
        }
    }
}

proof fn lemma_entity_lines_hold(names: Seq<Seq<char>>, i: int)
    requires
        0 <= i < names.len(),
    ensures
        contains(entity_lines(names), "- "@ + names[i] + "\n"@),
    decreases names.len(),
{
    let init = names.drop_last();
    let l = entity_lines(init);
    if i == names.len() - 1 {
        assert(entity_lines(names) =~= l + ("- "@ + names[i] + "\n"@));
        lemma_holds_suffix(l, "- "@ + names[i] + "\n"@);
    } else {
        assert(init[i] == names[i]);
        lemma_entity_lines_hold(init, i);
        assert(entity_lines(names) =~= l + ("- "@ + names.last() + "\n"@));
        lemma_holds_prefix(l, "- "@ + names.last() + "\n"@);
        lemma_contains_within(entity_lines(names), l, "- "@ + names[i] + "\n"@);
    }
}

proof fn lemma_memory_lines_hold(ms: Seq<Memory>, i: int)
    requires
        0 <= i < ms.len(),
    ensures
        contains(memory_lines(ms), memory_line(ms[i])),
    decreases ms.len(),
{
    let init = ms.drop_last();
    if i == ms.len() - 1 {
        lemma_holds_suffix(memory_lines(init), memory_line(ms.last()));
    } else {
        assert(init[i] == ms[i]);
        lemma_memory_lines_hold(init, i);
        lemma_holds_prefix(memory_lines(init), memory_line(ms.last()));
        lemma_contains_within(memory_lines(ms), memory_lines(init), memory_line(ms[i]));
    }
}

proof fn lemma_chunk_lines_hold(cs: Seq<RetrievedChunk>, i: int)
    requires
        0 <= i < cs.len(),
    ensures
        contains(chunk_lines(cs), chunk_lines_of(cs[i])),
    decreases cs.len(),
{
    let init = cs.drop_last();
    if i == cs.len() - 1 {
        lemma_holds_suffix(chunk_lines(init), chunk_lines_of(cs.last()));
    } else {
        assert(init[i] == cs[i]);
        lemma_chunk_lines_hold(init, i);
        lemma_holds_prefix(chunk_lines(init), chunk_lines_of(cs.last()));
        lemma_contains_within(chunk_lines(cs), chunk_lines(init), chunk_lines_of(cs[i]));
    }
}

/// Every retrieved memory is shown in the prompt, each as its own line
/// `- [kind] (salience s) content`.
pub proof fn lemma_every_memory_shown(ctx: PromptContext, i: int)
    requires
        0 <= i < ctx.memories@.len(),
    ensures
        contains(
            system_prompt(ctx),
            "- ["@ + ctx.memories@[i].kind.name() + "] (salience "@ + ctx.memories@[i].salience_score@ + ") "@
                + ctx.memories@[i].content@ + "\n"@,
        ),
{
    let body = memory_lines(ctx.memories@);
    lemma_sections_shown(ctx);
    lemma_holds_suffix("## Relevant Memories\n"@, body);
    lemma_contains_within(system_prompt(ctx), "## Relevant Memories\n"@ + body, body);
    lemma_memory_lines_hold(ctx.memories@, i);
    lemma_contains_within(system_prompt(ctx), body, memory_line(ctx.memories@[i]));
}

/// Every enabled policy is shown in the prompt, each as its own line
/// `- **name**: description`, with `(no description)` where it has none.
pub proof fn lemma_every_enabled_policy_shown(ctx: PromptContext, i: int)
    requires
        0 <= i < ctx.active_policies@.len(),
        ctx.active_policies@[i].enabled,
    ensures
        contains(
            system_prompt(ctx),
            "- **"@ + ctx.active_policies@[i].name@ + "**: "@ + match ctx.active_policies@[i].description {
                Some(d) => d@,
                None => "(no description)"@,
            } + "\n"@,
        ),
{
    let body = enabled_policy_lines(ctx.active_policies@);
    assert(any_enabled(ctx.active_policies@));
    lemma_sections_shown(ctx);
    lemma_holds_suffix("## Active Policies\n"@, body);
    lemma_contains_within(system_prompt(ctx), "## Active Policies\n"@ + body, body);
    lemma_policy_lines_hold(ctx.active_policies@, i);
    lemma_contains_within(system_prompt(ctx), body, policy_line(ctx.active_policies@[i]));
}

/// Every known entity is shown in the prompt, each as its own line `- name`.
pub proof fn lemma_every_entity_shown(ctx: PromptContext, i: int)
    requires
        0 <= i < ctx.entity_names@.len(),
    ensures
        contains(system_prompt(ctx), "- "@ + ctx.entity_names@[i]@ + "\n"@),
{
    let names = views(ctx.entity_names@);
    let body = entity_lines(names);
    lemma_sections_shown(ctx);
    lemma_holds_suffix("## Known Entities\n"@, body);
    lemma_contains_within(system_prompt(ctx), "## Known Entities\n"@ + body, body);
    lemma_entity_lines_hold(names, i);
    assert(names[i] == ctx.entity_names@[i]@);
    lemma_contains_within(system_prompt(ctx), body, "- "@ + names[i] + "\n"@);
}

/// Every retrieved chunk is shown in the prompt: `### Source: type (score s)`
/// and then its passage.
pub proof fn lemma_every_chunk_shown(ctx: PromptContext, i: int)
    requires
        0 <= i < ctx.chunks@.len(),
    ensures
        contains(
            system_prompt(ctx),
            "### Source: "@ + ctx.chunks@[i].source_type@ + " (score "@ + ctx.chunks@[i].score@ + ")\n"@
                + ctx.chunks@[i].content@ + "\n"@,
        ),
{
    let body = chunk_lines(ctx.chunks@);
    lemma_sections_shown(ctx);
    lemma_holds_suffix("## Relevant Context\n"@, body);
    lemma_contains_within(system_prompt(ctx), "## Relevant Context\n"@ + body, body);
    lemma_chunk_lines_hold(ctx.chunks@, i);
    lemma_contains_within(system_prompt(ctx), body, chunk_lines_of(ctx.chunks@[i]));
}

/// Builds the system prompt of a turn.
pub struct PromptBuilder;

fn policy_section(ps: &Vec<Policy>) -> (r: (String, bool))
    ensures
        r.0@ == "## Active Policies\n"@ + enabled_policy_lines(ps@),
        r.1 == any_enabled(ps@),
{
    let mut section = "## Active Policies\n".to_owned();
    let mut any = false;
    let mut i: usize = 0;
    while i < ps.len()
        invariant
            i <= ps.len(),
            section@ == "## Active Policies\n"@ + enabled_policy_lines(ps@.take(i as int)),
            any == any_enabled(ps@.take(i as int)),
        decreases ps.len() - i,
    {
        let p = &ps[i];
        assert(ps@.take(i + 1).drop_last() =~= ps@.take(i as int));
        assert(ps@.take(i + 1).last() == *p);
        if p.enabled {
            append(&mut section, "- **");
            append(&mut section, p.name.as_str());
            append(&mut section, "**: ");
            match &p.description {
                Some(d) => append(&mut section, d.as_str()),
                None => append(&mut section, "(no description)"),
            }
            append(&mut section, "\n");
            any = true;
            assert(ps@.take(i + 1)[i as int].enabled);
        } else {
            assert forall|j: int| 0 <= j < i + 1 && #[trigger] ps@.take(i + 1)[j].enabled implies ps@.take(i as int)[j].enabled by {
                assert(j != i);
            }
        }
        assert(section@ =~= "## Active Policies\n"@ + enabled_policy_lines(ps@.take(i + 1)));
        i = i + 1;
        proof {
            if any {
                assert(any_enabled(ps@.take(i as int)));
            }
        }
    }
    assert(ps@.take(ps.len() as int) =~= ps@);
    (section, any)
}

fn entity_section(names: &Vec<String>) -> (s: String)
    ensures
        s@ == "## Known Entities\n"@ + entity_lines(views(names@)),
{
    let mut section = "## Known Entities\n".to_owned();
    let ghost vs = views(names@);
    let mut i: usize = 0;
    while i < names.len()
        invariant
            i <= names.len(),
            vs == views(names@),
            section@ == "## Known Entities\n"@ + entity_lines(vs.take(i as int)),
        decreases names.len() - i,
    {
        assert(vs.take(i + 1).drop_last() =~= vs.take(i as int));
        assert(vs.take(i + 1).last() == names@[i as int]@);
        append(&mut section, "- ");
        append(&mut section, names[i].as_str());
        append(&mut section, "\n");
        assert(section@ =~= "## Known Entities\n"@ + entity_lines(vs.take(i + 1)));
        i = i + 1;
    }
    assert(vs.take(names.len() as int) =~= vs);
    section
}

fn memory_section(ms: &Vec<Memory>) -> (s: String)
    ensures
        s@ == "## Relevant Memories\n"@ + memory_lines(ms@),
{
    let mut section = "## Relevant Memories\n".to_owned();
    let mut i: usize = 0;
    while i < ms.len()
        invariant
            i <= ms.len(),
            section@ == "## Relevant Memories\n"@ + memory_lines(ms@.take(i as int)),
        decreases ms.len() - i,
    {
        let m = &ms[i];
        assert(ms@.take(i + 1).drop_last() =~= ms@.take(i as int));
        assert(ms@.take(i + 1).last() == *m);
        append(&mut section, "- [");
        append(&mut section, m.kind.as_str());
        append(&mut section, "] (salience ");
        append(&mut section, m.salience_score.as_str());
        append(&mut section, ") ");
        append(&mut section, m.content.as_str());
        append(&mut section, "\n");
        assert(section@ =~= "## Relevant Memories\n"@ + memory_lines(ms@.take(i + 1)));
        i = i + 1;
    }
    assert(ms@.take(ms.len() as int) =~= ms@);
    section
}

fn chunk_section(cs: &Vec<RetrievedChunk>) -> (s: String)
    ensures
        s@ == "## Relevant Context\n"@ + chunk_lines(cs@),
{
    let mut section = "## Relevant Context\n".to_owned();
    let mut i: usize = 0;
    while i < cs.len()
        invariant
            i <= cs.len(),
            section@ == "## Relevant Context\n"@ + chunk_lines(cs@.take(i as int)),
        decreases cs.len() - i,
    {
        let c = &cs[i];
        assert(cs@.take(i + 1).drop_last() =~= cs@.take(i as int));
        assert(cs@.take(i + 1).last() == *c);
        append(&mut section, "### Source: ");
        append(&mut section, c.source_type.as_str());
        append(&mut section, " (score ");
        append(&mut section, c.score.as_str());
        append(&mut section, ")\n");
        append(&mut section, c.content.as_str());
        append(&mut section, "\n");
        assert(section@ =~= "## Relevant Context\n"@ + chunk_lines(cs@.take(i + 1)));
        i = i + 1;
    }
    assert(cs@.take(cs.len() as int) =~= cs@);
    section
}

impl PromptBuilder {
    pub fn new() -> (b: PromptBuilder) {
        PromptBuilder
    }

    /// Builds the full system prompt from a context: see `system_prompt`.
    pub fn build_system_prompt(&self, ctx: &PromptContext) -> (prompt: String)
        ensures
            prompt@ == system_prompt(*ctx),
    {
        let mut parts: Vec<String> = Vec::new();

        // ── Core principle ────────────────────────────────────────────────
        parts.push(
            "You are Personal Context Core, a local-first personal AI assistant.\nPrinciple: Local by default, cloud by exception, user visible always.\nYou have access to the user's personal memory and context stored on their device.\nRespect privacy. Never speculate about sensitive data. Be concise and honest.".to_owned(),
        );
        let ghost p0 = views(parts@);
        assert(p0 =~= seq![core_principle()]);

        // ── Active policies ───────────────────────────────────────────────
        let (section, any) = policy_section(&ctx.active_policies);
        if any {
            parts.push(section);
        }
        let ghost p1 = views(parts@);
        assert(p1 =~= if any_enabled(ctx.active_policies@) {
            p0.push("## Active Policies\n"@ + enabled_policy_lines(ctx.active_policies@))
        } else {
            p0
        });

        // ── Known entities ────────────────────────────────────────────────
        if ctx.entity_names.len() > 0 {
            parts.push(entity_section(&ctx.entity_names));
        }
        let ghost p2 = views(parts@);
        assert(p2 =~= if ctx.entity_names@.len() > 0 {
            p1.push("## Known Entities\n"@ + entity_lines(views(ctx.entity_names@)))
        } else {
            p1
        });

        // ── Retrieved memories ────────────────────────────────────────────
        if ctx.memories.len() > 0 {
            parts.push(memory_section(&ctx.memories));
        }
        let ghost p3 = views(parts@);
        assert(p3 =~= if ctx.memories@.len() > 0 {
            p2.push("## Relevant Memories\n"@ + memory_lines(ctx.memories@))
        } else {
            p2
        });

        // ── Retrieved chunks ──────────────────────────────────────────────
        if ctx.chunks.len() > 0 {
            parts.push(chunk_section(&ctx.chunks));
        }
        assert(views(parts@) =~= prompt_parts(*ctx));

        join_strings(&parts, "\n\n")
    }
}

} // verus!
