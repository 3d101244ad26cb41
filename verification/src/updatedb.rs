//! Keeping brick mounts out of the locate database.
//!
//! Every brick mount point, and the cluster mount itself, is added to the
//! `PRUNEPATHS` list of the updatedb configuration, so that file indexing
//! stays away from the replicated storage.  This module computes the new
//! configuration text; reading and writing the file is the caller's work.

use vstd::prelude::*;

use crate::text::{
    contains_str, join_with, spec_config_lines, spec_join, spec_split, spec_starts_with, spec_str_views,
    split_on, str_starts_with,
};

verus! {

/// What one configuration line becomes: a `PRUNEPATHS=` line has its
/// quotes dropped, its space-separated path list extended by `new_path`
/// unless already present, and is rebuilt quoted; any other line is kept.
/// Every line comes out newline-terminated.
pub open spec fn spec_updatedb_line(line: Seq<char>, new_path: Seq<char>) -> Seq<char> {
    if spec_starts_with(line, "PRUNEPATHS="@) {
        let unquoted = spec_join(spec_split(line.skip(11), '"'), Seq::empty());
        let paths = spec_split(unquoted, ' ');
        let extended = if paths.contains(new_path) {
            paths
        } else {
            paths.push(new_path)
        };
        "PRUNEPATHS=\""@ + spec_join(extended, " "@) + "\"\n"@
    } else {
        line + "\n"@
    }
}

/// The rewritten configuration: every line mapped, in order.
pub open spec fn spec_updatedb_lines(lines: Seq<Seq<char>>, new_path: Seq<char>) -> Seq<char>
    decreases lines.len(),
{
    if lines.len() == 0 {
        Seq::empty()
    } else {
        spec_updatedb_lines(lines.drop_last(), new_path) + spec_updatedb_line(
            lines.last(),
            new_path,
        )
    }
}

/// Rewrite an updatedb configuration so that `new_path` is among the
/// pruned paths.  Lines other than the `PRUNEPATHS=` list pass through
/// unchanged; running the rewrite again with the same path changes
/// nothing further.
#[verifier::loop_isolation(false)]
pub fn updatedb(content: String, new_path: &String) -> (output: String)
    ensures
        output@ == spec_updatedb_lines(spec_config_lines(content@), new_path@),
{
    let lines = crate::text::config_lines(content.as_str());
    let ghost line_views = spec_config_lines(content@);
    let mut output = String::new();
    let mut i: usize = 0;
    while i < lines.len()
        invariant
            i <= lines@.len(),
            spec_str_views(lines@) == line_views,
            output@ == spec_updatedb_lines(line_views.take(i as int), new_path@),
        decreases lines@.len() - i,
    {
        proof {
            assert(line_views.take(i + 1).drop_last() =~= line_views.take(i as int));
        }
        let line = &lines[i];
        let ghost line_view = line_views[i as int];
        if str_starts_with(line.as_str(), "PRUNEPATHS=") {
            proof {
                reveal_strlit("PRUNEPATHS=");
                reveal_strlit("");
                assert(""@ =~= Seq::<char>::empty());
            }
            let len = line.as_str().unicode_len();
            let tail = line.as_str().substring_char(11, len);
            proof {
                assert(tail@ =~= line_view.skip(11));
            }
            let quote_parts = split_on(tail, '"');
            let unquoted = join_with(&quote_parts, "");
            proof {
                assert(unquoted@ == spec_join(
                    spec_split(line_view.skip(11), '"'),
                    Seq::empty(),
                ));
            }
            let mut paths = split_on(unquoted.as_str(), ' ');
            let ghost prior_paths = spec_str_views(paths@);
            if !contains_str(&paths, new_path.as_str()) {
                paths.push(new_path.clone());
                proof {
                    assert(spec_str_views(paths@) =~= prior_paths.push(new_path@));
                }
            }
            output.append("PRUNEPATHS=\"");
            let joined = join_with(&paths, " ");
            output.append(joined.as_str());
            output.append("\"\n");
            proof {
                assert(output@ == spec_updatedb_lines(line_views.take(i + 1), new_path@));
            }
        } else {
            output.append(line.as_str());
            output.append("\n");
            proof {
                assert(output@ == spec_updatedb_lines(line_views.take(i + 1), new_path@));
            }
        }
        i = i + 1;
    }
    proof {
        assert(line_views.take(lines@.len() as int) =~= line_views);
    }
    output
}

} // verus!
