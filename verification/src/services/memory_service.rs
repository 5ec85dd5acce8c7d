use vstd::prelude::*;

use crate::text::{append, concat3, decimal, join, join_strings, push_decimal, replace_all, replace_all_str, starts_with, views};

verus! {

/// A keyword made safe to stand inside a quoted SQL string: each `'` doubled.
pub open spec fn escaped(keyword: Seq<char>) -> Seq<char> {
    replace_all(keyword, "'"@, "''"@)
}

/// Reading each `''` of an escaped keyword back as `'` gives the keyword: the
/// escape keeps every character, and its doubled quotes are all it adds.
pub proof fn lemma_escape_round_trip(keyword: Seq<char>)
    ensures
        replace_all(escaped(keyword), "''"@, "'"@) == keyword,
    decreases keyword.len(),
{
    reveal_strlit("'");
    reveal_strlit("''");
    assert("'"@ =~= seq!['\'']);
    assert("''"@ =~= seq!['\'', '\'']);
    if keyword.len() > 0 {
        let rest = keyword.skip(1);
        lemma_escape_round_trip(rest);
        let x = escaped(keyword);
        if keyword[0] == '\'' {
            assert(starts_with(keyword, "'"@)) by {
                assert(keyword.subrange(0, 1) =~= seq!['\'']);
            }
            assert(x == "''"@ + escaped(rest));
            assert(starts_with(x, "''"@)) by {
                assert(x.subrange(0, 2) =~= "''"@);
            }
            assert(x.skip(2) =~= escaped(rest));
        } else {
            assert(!starts_with(keyword, "'"@)) by {
                assert(keyword.subrange(0, 1)[0] == keyword[0]);
            }
            assert(x == seq![keyword[0]] + escaped(rest));
            assert(!starts_with(x, "''"@)) by {
                assert(x[0] == keyword[0]);
                if x.len() >= 2 {
                    assert(x.subrange(0, 2)[0] == x[0]);
                }
            }
            assert(x.skip(1) =~= escaped(rest));
            assert(replace_all(x, "''"@, "'"@) == seq![keyword[0]] + rest);
        }
        assert(keyword =~= seq![keyword[0]] + rest);
    } else {
        assert(escaped(keyword) =~= keyword);
    }
}

/// The condition that memory content holds the keyword.
pub open spec fn like_condition(keyword: Seq<char>) -> Seq<char> {
    "content LIKE '%"@ + escaped(keyword) + "%'"@
}

/// The query for the memories whose content holds any of the keywords, most
/// salient first, at most `limit` of them.
pub open spec fn retrieval_sql(keywords: Seq<Seq<char>>, limit: nat) -> Seq<char> {
    "SELECT id, kind, scope, sensitivity, content, salience_score, source_kind, source_id, entity_id, created_at, updated_at, expires_at FROM memories WHERE "@
        + join(keywords.map_values(|k: Seq<char>| like_condition(k)), " OR "@)
        + " ORDER BY salience_score DESC LIMIT "@ + decimal(limit)
}

/// The retrieval query for the keywords, or `None` where there are none to
/// look for (and nothing is to be retrieved).
pub fn retrieval_query(keywords: &Vec<String>, limit: u32) -> (q: Option<String>)
    ensures
        keywords@.len() == 0 ==> q is None,
        keywords@.len() > 0 ==> (q matches Some(s) && s@ == retrieval_sql(views(keywords@), limit as nat)),
{
    if keywords.len() == 0 {
        return None;
    }
    proof {
        reveal_strlit("'");
    }
    let mut conditions: Vec<String> = Vec::new();
    let mut i: usize = 0;
    while i < keywords.len()
        invariant
            i <= keywords.len(),
            "'"@.len() > 0,
            views(conditions@) == views(keywords@).take(i as int).map_values(|k: Seq<char>| like_condition(k)),
        decreases keywords.len() - i,
    {
        let escaped_kw = replace_all_str(keywords[i].as_str(), "'", "''");
        let condition = concat3("content LIKE '%", escaped_kw.as_str(), "%'");
        let ghost before = views(conditions@);
        conditions.push(condition);
        assert(views(conditions@) =~= before.push(like_condition(keywords@[i as int]@)));
        assert(views(keywords@).take(i + 1) =~= views(keywords@).take(i as int).push(keywords@[i as int]@));
        assert(views(conditions@) =~= views(keywords@).take(i + 1).map_values(|k: Seq<char>| like_condition(k)));
        i = i + 1;
    }
    assert(views(keywords@).take(keywords.len() as int) =~= views(keywords@));
    let where_clause = join_strings(&conditions, " OR ");
    let mut sql = "SELECT id, kind, scope, sensitivity, content, salience_score, source_kind, source_id, entity_id, created_at, updated_at, expires_at FROM memories WHERE ".to_owned();
    append(&mut sql, where_clause.as_str());
    append(&mut sql, " ORDER BY salience_score DESC LIMIT ");
    push_decimal(&mut sql, limit as u64);
    assert(sql@ =~= retrieval_sql(views(keywords@), limit as nat));
    Some(sql)
}

} // verus!
