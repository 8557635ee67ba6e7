//! What the usage query asks for, and what it leaves out.

use vstd::prelude::*;
use vstd::string::*;

use crate::restatedeployment::cleanup::{
    usage_query, CleanupMode, QUERY_COLUMNS, QUERY_END, QUERY_HEAD, QUERY_TABLES, UNPINNED_COUNT,
    UNPINNED_CTE, UNPINNED_JOIN,
};
use crate::text::{
    lemma_lacks, lemma_occurrences_add_up, lemma_occurrences_count, lemma_occurs_nowhere,
    lemma_occurs_once, occurrences, occurs_in, stands_at,
};

verus! {

/// Only a drain counts unpinned work: it alone scans the invocations a second time, and it alone
/// looks at their target services. Completed invocations are left out wherever invocations are
/// counted. All modes name the same result columns, and a forced deletion asks what a rollout asks.
pub proof fn only_a_drain_counts_unpinned_work(mode: CleanupMode)
    ensures
        occurrences(usage_query(mode), "sys_invocation_status"@) == if mode
            == CleanupMode::Deleting {
            2nat
        } else {
            1
        },
        occurrences(usage_query(mode), "status != 'completed'"@) == occurrences(
            usage_query(mode),
            "sys_invocation_status"@,
        ),
        occurs_in(usage_query(mode), "target_service_name"@) <==> mode == CleanupMode::Deleting,
        occurs_in(usage_query(mode), "unpinned AS"@) <==> mode == CleanupMode::Deleting,
        occurs_in(usage_query(mode), "AS unpinned_invocations"@),
        occurs_in(usage_query(mode), "AS pinned_invocations"@),
        occurs_in(usage_query(mode), "AS latest_for_service"@),
        usage_query(CleanupMode::ForceDeleting) == usage_query(CleanupMode::Rollout),
{
    lemma_head();
    lemma_unpinned();
    lemma_columns();
    lemma_tables();
    lemma_small_pieces();
    lemma_seams();
    lemma_query(mode, "sys_invocation_status"@);
    lemma_query(mode, "status != 'completed'"@);
    lemma_query(mode, "target_service_name"@);
    lemma_query(mode, "unpinned AS"@);
    lemma_query(mode, "AS unpinned_invocations"@);
    lemma_query(mode, "AS pinned_invocations"@);
    lemma_query(mode, "AS latest_for_service"@);
    lemma_occurrences_count(usage_query(mode), "target_service_name"@);
    lemma_occurrences_count(usage_query(mode), "unpinned AS"@);
    lemma_occurrences_count(usage_query(mode), "AS unpinned_invocations"@);
    lemma_occurrences_count(usage_query(mode), "AS pinned_invocations"@);
    lemma_occurrences_count(usage_query(mode), "AS latest_for_service"@);
}

/// Whether a text can stand only within one piece of the query, never across a seam.
spec fn fits_a_piece(part: Seq<char>) -> bool {
    &&& part.len() > 0
    &&& !part.contains(')')
    &&& !part.contains('0')
    &&& !part.contains('C')
    &&& !part.contains('\n')
}

/// The texts that are looked for fit a piece.
proof fn lemma_seams()
    ensures
        fits_a_piece("sys_invocation_status"@),
        fits_a_piece("status != 'completed'"@),
        fits_a_piece("target_service_name"@),
        fits_a_piece("unpinned AS"@),
        fits_a_piece("AS unpinned_invocations"@),
        fits_a_piece("AS pinned_invocations"@),
        fits_a_piece("AS latest_for_service"@),
{
    reveal_strlit("sys_invocation_status");
    reveal_strlit("status != 'completed'");
    reveal_strlit("target_service_name");
    reveal_strlit("unpinned AS");
    reveal_strlit("AS unpinned_invocations");
    reveal_strlit("AS pinned_invocations");
    reveal_strlit("AS latest_for_service");
}

/// What fits a piece of the query occurs in the query as often as in its pieces together.
proof fn lemma_query(mode: CleanupMode, part: Seq<char>)
    requires
        fits_a_piece(part),
    ensures
        occurrences(usage_query(mode), part) == occurrences(QUERY_HEAD@, part) + occurrences(
            QUERY_COLUMNS@,
            part,
        ) + occurrences(QUERY_TABLES@, part) + occurrences(QUERY_END@, part) + if mode
            == CleanupMode::Deleting {
            occurrences(UNPINNED_CTE@, part) + occurrences(UNPINNED_COUNT@, part) + occurrences(
                UNPINNED_JOIN@,
                part,
            )
        } else {
            occurrences("0"@, part)
        },
{
    lemma_head();
    lemma_unpinned();
    lemma_tables();
    lemma_small_pieces();
    if mode == CleanupMode::Deleting {
        let a = QUERY_HEAD@ + UNPINNED_CTE@;
        let b = a + QUERY_COLUMNS@;
        let c = b + UNPINNED_COUNT@;
        let d = c + QUERY_TABLES@;
        let e = d + UNPINNED_JOIN@;
        lemma_occurrences_add_up(QUERY_HEAD@, UNPINNED_CTE@, part);
        lemma_occurrences_add_up(a, QUERY_COLUMNS@, part);
        lemma_occurrences_add_up(b, UNPINNED_COUNT@, part);
        lemma_occurrences_add_up(c, QUERY_TABLES@, part);
        lemma_occurrences_add_up(d, UNPINNED_JOIN@, part);
        lemma_occurrences_add_up(e, QUERY_END@, part);
    } else {
        let a = QUERY_HEAD@ + QUERY_COLUMNS@;
        let b = a + "0"@;
        let c = b + QUERY_TABLES@;
        lemma_occurrences_add_up(QUERY_HEAD@, QUERY_COLUMNS@, part);
        lemma_occurrences_add_up(a, "0"@, part);
        lemma_occurrences_add_up(b, QUERY_TABLES@, part);
        lemma_occurrences_add_up(c, QUERY_END@, part);
    }
}

/// What the head of every query holds.
proof fn lemma_head()
    ensures
        occurrences(QUERY_HEAD@, "sys_invocation_status"@) == 1,
        occurrences(QUERY_HEAD@, "status != 'completed'"@) == 1,
        occurrences(QUERY_HEAD@, "target_service_name"@) == 0,
        occurrences(QUERY_HEAD@, "unpinned AS"@) == 0,
        QUERY_HEAD@.len() > 0 && QUERY_HEAD@.last() == ')',
{
    reveal_strlit("\n            WITH latest AS (\n                SELECT DISTINCT deployment_id AS id\n                FROM sys_service\n                WHERE deployment_id IS NOT NULL\n            ),\n            pinned AS (\n                SELECT pinned_deployment_id AS id, COUNT(*) AS n\n                FROM sys_invocation_status\n                WHERE pinned_deployment_id IS NOT NULL AND status != 'completed'\n                GROUP BY pinned_deployment_id\n            )");
    reveal_strlit("sys_invocation_status");
    reveal_strlit("status != 'completed'");
    reveal_strlit("target_service_name");
    reveal_strlit("unpinned AS");
    assert(occurrences(QUERY_HEAD@, "sys_invocation_status"@) == 1) by {
        let part = "sys_invocation_status"@;
        assert(stands_at(QUERY_HEAD@, part, 288));
        assert forall|i: int| stands_at(QUERY_HEAD@, part, i) implies i == 288 by {
            assert(part[6] == 'v');
            assert(part[1] == 'y');
        }
        lemma_occurs_once(QUERY_HEAD@, part, 288);
    }
    assert(occurrences(QUERY_HEAD@, "status != 'completed'"@) == 1) by {
        let part = "status != 'completed'"@;
        assert(stands_at(QUERY_HEAD@, part, 369));
        assert forall|i: int| stands_at(QUERY_HEAD@, part, i) implies i == 369 by {
            assert(part[7] == '!');
        }
        lemma_occurs_once(QUERY_HEAD@, part, 369);
    }
    lemma_lacks(QUERY_HEAD@, "target_service_name"@, 3);
    assert(occurrences(QUERY_HEAD@, "unpinned AS"@) == 0) by {
        let part = "unpinned AS"@;
        assert forall|i: int| !stands_at(QUERY_HEAD@, part, i) by {
            assert(part[0] == 'u');
            assert(part[1] == 'n');
        }
        lemma_occurs_nowhere(QUERY_HEAD@, part);
    }
}

/// What a drain adds to the head.
proof fn lemma_unpinned()
    ensures
        occurrences(UNPINNED_CTE@, "sys_invocation_status"@) == 1,
        occurrences(UNPINNED_CTE@, "status != 'completed'"@) == 1,
        occurrences(UNPINNED_CTE@, "target_service_name"@) == 1,
        occurrences(UNPINNED_CTE@, "unpinned AS"@) == 1,
        UNPINNED_CTE@.len() > 0 && UNPINNED_CTE@.last() == ')',
{
    reveal_strlit(",\n            unpinned AS (\n                SELECT s.deployment_id AS id, COUNT(*) AS n\n                FROM sys_invocation_status i\n                JOIN sys_service s ON s.name = i.target_service_name\n                WHERE i.pinned_deployment_id IS NULL\n                  AND i.status != 'completed'\n                GROUP BY s.deployment_id\n            )");
    reveal_strlit("sys_invocation_status");
    reveal_strlit("status != 'completed'");
    reveal_strlit("target_service_name");
    reveal_strlit("unpinned AS");
    assert(occurrences(UNPINNED_CTE@, "sys_invocation_status"@) == 1) by {
        let part = "sys_invocation_status"@;
        assert(stands_at(UNPINNED_CTE@, part, 109));
        assert forall|i: int| stands_at(UNPINNED_CTE@, part, i) implies i == 109 by {
            assert(part[6] == 'v');
            assert(part[1] == 'y');
        }
        lemma_occurs_once(UNPINNED_CTE@, part, 109);
    }
    assert(occurrences(UNPINNED_CTE@, "status != 'completed'"@) == 1) by {
        let part = "status != 'completed'"@;
        assert(stands_at(UNPINNED_CTE@, part, 279));
        assert forall|i: int| stands_at(UNPINNED_CTE@, part, i) implies i == 279 by {
            assert(part[7] == '!');
        }
        lemma_occurs_once(UNPINNED_CTE@, part, 279);
    }
    assert(occurrences(UNPINNED_CTE@, "target_service_name"@) == 1) by {
        let part = "target_service_name"@;
        assert(stands_at(UNPINNED_CTE@, part, 182));
        assert forall|i: int| stands_at(UNPINNED_CTE@, part, i) implies i == 182 by {
            assert(part[3] == 'g');
        }
        lemma_occurs_once(UNPINNED_CTE@, part, 182);
    }
    assert(occurrences(UNPINNED_CTE@, "unpinned AS"@) == 1) by {
        let part = "unpinned AS"@;
        assert(stands_at(UNPINNED_CTE@, part, 14));
        assert forall|i: int| stands_at(UNPINNED_CTE@, part, i) implies i == 14 by {
            assert(part[0] == 'u');
            assert(part[1] == 'n');
        }
        lemma_occurs_once(UNPINNED_CTE@, part, 14);
    }
}

/// The columns that every query names first.
proof fn lemma_columns()
    ensures
        occurrences(QUERY_COLUMNS@, "sys_invocation_status"@) == 0,
        occurrences(QUERY_COLUMNS@, "status != 'completed'"@) == 0,
        occurrences(QUERY_COLUMNS@, "target_service_name"@) == 0,
        occurrences(QUERY_COLUMNS@, "unpinned AS"@) == 0,
        occurrences(QUERY_COLUMNS@, "AS pinned_invocations"@) > 0,
        occurrences(QUERY_COLUMNS@, "AS latest_for_service"@) > 0,
{
    reveal_strlit("\n            SELECT d.id AS deployment_id,\n                   l.id IS NOT NULL AS latest_for_service,\n                   COALESCE(p.n, 0) AS pinned_invocations,\n                   ");
    reveal_strlit("sys_invocation_status");
    reveal_strlit("status != 'completed'");
    reveal_strlit("target_service_name");
    reveal_strlit("unpinned AS");
    reveal_strlit("AS pinned_invocations");
    reveal_strlit("AS latest_for_service");
    lemma_lacks(QUERY_COLUMNS@, "sys_invocation_status"@, 19);
    lemma_lacks(QUERY_COLUMNS@, "status != 'completed'"@, 7);
    lemma_lacks(QUERY_COLUMNS@, "target_service_name"@, 3);
    lemma_lacks(QUERY_COLUMNS@, "unpinned AS"@, 0);
    assert(occurrences(QUERY_COLUMNS@, "AS pinned_invocations"@) > 0) by {
        assert(stands_at(QUERY_COLUMNS@, "AS pinned_invocations"@, 138));
        lemma_occurrences_count(QUERY_COLUMNS@, "AS pinned_invocations"@);
    }
    assert(occurrences(QUERY_COLUMNS@, "AS latest_for_service"@) > 0) by {
        assert(stands_at(QUERY_COLUMNS@, "AS latest_for_service"@, 79));
        lemma_occurrences_count(QUERY_COLUMNS@, "AS latest_for_service"@);
    }
}

/// The last column and the tables that every query reads.
proof fn lemma_tables()
    ensures
        occurrences(QUERY_TABLES@, "sys_invocation_status"@) == 0,
        occurrences(QUERY_TABLES@, "status != 'completed'"@) == 0,
        occurrences(QUERY_TABLES@, "target_service_name"@) == 0,
        occurrences(QUERY_TABLES@, "unpinned AS"@) == 0,
        occurrences(QUERY_TABLES@, "AS unpinned_invocations"@) > 0,
        QUERY_TABLES@.len() > 0,
{
    reveal_strlit(" AS unpinned_invocations\n            FROM sys_deployment d\n            LEFT JOIN latest l ON d.id = l.id\n            LEFT JOIN pinned p ON d.id = p.id");
    reveal_strlit("sys_invocation_status");
    reveal_strlit("status != 'completed'");
    reveal_strlit("target_service_name");
    reveal_strlit("unpinned AS");
    reveal_strlit("AS unpinned_invocations");
    assert(occurrences(QUERY_TABLES@, "sys_invocation_status"@) == 0) by {
        let part = "sys_invocation_status"@;
        assert forall|i: int| !stands_at(QUERY_TABLES@, part, i) by {
            assert(part[19] == 'u');
            assert(part[18] == 't');
        }
        lemma_occurs_nowhere(QUERY_TABLES@, part);
    }
    lemma_lacks(QUERY_TABLES@, "status != 'completed'"@, 7);
    lemma_lacks(QUERY_TABLES@, "target_service_name"@, 3);
    assert(occurrences(QUERY_TABLES@, "unpinned AS"@) == 0) by {
        let part = "unpinned AS"@;
        assert forall|i: int| !stands_at(QUERY_TABLES@, part, i) by {
            assert(part[0] == 'u');
            assert(part[8] == ' ');
        }
        lemma_occurs_nowhere(QUERY_TABLES@, part);
    }
    assert(occurrences(QUERY_TABLES@, "AS unpinned_invocations"@) > 0) by {
        assert(stands_at(QUERY_TABLES@, "AS unpinned_invocations"@, 1));
        lemma_occurrences_count(QUERY_TABLES@, "AS unpinned_invocations"@);
    }
}

/// The pieces that are left hold nothing of this.
proof fn lemma_small_pieces()
    ensures
        occurrences(UNPINNED_COUNT@, "sys_invocation_status"@) == 0,
        occurrences(UNPINNED_COUNT@, "status != 'completed'"@) == 0,
        occurrences(UNPINNED_COUNT@, "target_service_name"@) == 0,
        occurrences(UNPINNED_COUNT@, "unpinned AS"@) == 0,
        occurrences(UNPINNED_JOIN@, "sys_invocation_status"@) == 0,
        occurrences(UNPINNED_JOIN@, "status != 'completed'"@) == 0,
        occurrences(UNPINNED_JOIN@, "target_service_name"@) == 0,
        occurrences(UNPINNED_JOIN@, "unpinned AS"@) == 0,
        occurrences(QUERY_END@, "sys_invocation_status"@) == 0,
        occurrences(QUERY_END@, "status != 'completed'"@) == 0,
        occurrences(QUERY_END@, "target_service_name"@) == 0,
        occurrences(QUERY_END@, "unpinned AS"@) == 0,
        occurrences("0"@, "sys_invocation_status"@) == 0,
        occurrences("0"@, "status != 'completed'"@) == 0,
        occurrences("0"@, "target_service_name"@) == 0,
        occurrences("0"@, "unpinned AS"@) == 0,
        UNPINNED_COUNT@.len() > 0 && UNPINNED_COUNT@[0] == 'C' && UNPINNED_COUNT@.last() == ')',
        UNPINNED_JOIN@.len() > 0 && UNPINNED_JOIN@[0] == '\n',
        QUERY_END@.len() > 0 && QUERY_END@[0] == '\n',
        "0"@.len() == 1 && "0"@[0] == '0',
{
    reveal_strlit("COALESCE(u.n, 0)");
    reveal_strlit("\n            LEFT JOIN unpinned u ON d.id = u.id");
    reveal_strlit("\n        ");
    reveal_strlit("0");
    reveal_strlit("sys_invocation_status");
    reveal_strlit("status != 'completed'");
    reveal_strlit("target_service_name");
    reveal_strlit("unpinned AS");
    lemma_lacks(UNPINNED_COUNT@, "sys_invocation_status"@, 1);
    lemma_lacks(UNPINNED_COUNT@, "status != 'completed'"@, 7);
    lemma_lacks(UNPINNED_COUNT@, "target_service_name"@, 3);
    lemma_lacks(UNPINNED_COUNT@, "unpinned AS"@, 3);
    lemma_lacks(UNPINNED_JOIN@, "sys_invocation_status"@, 1);
    lemma_lacks(UNPINNED_JOIN@, "status != 'completed'"@, 7);
    lemma_lacks(UNPINNED_JOIN@, "target_service_name"@, 3);
    lemma_lacks(UNPINNED_JOIN@, "unpinned AS"@, 9);
    lemma_lacks(QUERY_END@, "sys_invocation_status"@, 1);
    lemma_lacks(QUERY_END@, "status != 'completed'"@, 7);
    lemma_lacks(QUERY_END@, "target_service_name"@, 3);
    lemma_lacks(QUERY_END@, "unpinned AS"@, 0);
    lemma_lacks("0"@, "sys_invocation_status"@, 1);
    lemma_lacks("0"@, "status != 'completed'"@, 7);
    lemma_lacks("0"@, "target_service_name"@, 3);
    lemma_lacks("0"@, "unpinned AS"@, 0);
}

} // verus!
