//! Per-event policy of the configuration hook.
//!
//! A configuration change may carry new devices, new sysctl settings, and
//! a new package source.  Device and sysctl trouble is reported but never
//! fails the event; only the upgrade path decides the event's outcome.
//! An upgrade is undertaken exactly when a new source was configured and
//! it offers a strictly newer package version than the one running.

use vstd::prelude::*;

verus! {

/// A decimal digit.
pub open spec fn spec_digit(c: char) -> bool {
    48 <= c as u32 <= 57
}

/// Every character of `s` is a decimal digit.
pub open spec fn spec_all_digits(s: Seq<char>) -> bool {
    forall|k: int| 0 <= k < s.len() ==> spec_digit(#[trigger] s[k])
}

/// No run of twenty or more consecutive decimal digits occurs in `s`.
/// Every number written in `s` then has at most nineteen digits and so
/// fits a 64-bit value.
pub open spec fn spec_short_digit_runs(s: Seq<char>) -> bool {
    forall|i: int|
        0 <= i && i + 20 <= s.len() ==> !spec_all_digits(#[trigger] s.subrange(i, i + 20))
}

/// Whether the version string `proposed` orders strictly newer than
/// `current` under package-version ordering, or `None` when either string
/// does not parse as a version.
pub uninterp spec fn deb_newer_of(proposed: Seq<char>, current: Seq<char>) -> Option<bool>;

/// Relies on debian's `Version`: parse both strings and compare them with
/// the package-version ordering, which depends on the two strings alone.
/// The parser accumulates each digit run into a 64-bit value with
/// unchecked arithmetic, so runs of twenty or more digits are kept out
/// by the caller.
#[verifier::external_body]
fn version_newer(proposed: &str, current: &str) -> (newer: Option<bool>)
    requires
        spec_short_digit_runs(proposed@),
        spec_short_digit_runs(current@),
    ensures
        newer == deb_newer_of(proposed@, current@),
{
    match (debian::version::Version::parse(proposed), debian::version::Version::parse(current)) {
        (Ok(proposed_version), Ok(current_version)) => Some(proposed_version > current_version),
        _ => None,
    }
}

/// Decide whether `c` is a decimal digit.
fn is_digit_char(c: char) -> (digit: bool)
    ensures
        digit == spec_digit(c),
{
    let code = c as u32;
    48 <= code && code <= 57
}

/// Decide whether `text` is free of runs of twenty or more consecutive
/// decimal digits.
#[verifier::loop_isolation(false)]
fn short_digit_runs(text: &str) -> (short: bool)
    ensures
        short == spec_short_digit_runs(text@),
{
    let len = text.unicode_len();
    let mut run: usize = 0;
    let mut i: usize = 0;
    while i < len
        invariant
            len == text@.len(),
            i <= len,
            run <= i,
            run <= 19,
            forall|k: int| i - run <= k < i ==> spec_digit(#[trigger] text@[k]),
            run < i ==> !spec_digit(text@[i - run - 1]),
            forall|p: int|
                0 <= p && p + 20 <= i ==> !spec_all_digits(#[trigger] text@.subrange(p, p + 20)),
        decreases len - i,
    {
        let ghost previous_run = run as int;
        if is_digit_char(text.get_char(i)) {
            run = run + 1;
            if run >= 20 {
                proof {
                    assert(spec_all_digits(text@.subrange(i - 19, i + 1)));
                    assert(text@.subrange(i - 19, (i - 19) + 20) =~= text@.subrange(
                        i - 19,
                        i + 1,
                    ));
                }
                return false;
            }
            proof {
                if i + 1 >= 20 {
                    // The window ending here still holds the non-digit
                    // just before the current run.
                    let gap = i - previous_run - 1;
                    assert(previous_run < i);
                    assert(!spec_digit(text@[gap]));
                    assert(text@.subrange(i + 1 - 20, (i + 1 - 20) + 20)[gap - (i + 1 - 20)]
                        == text@[gap]);
                }
            }
        } else {
            run = 0;
            proof {
                if i + 1 >= 20 {
                    assert(text@.subrange(i + 1 - 20, (i + 1 - 20) + 20)[19] == text@[i as int]);
                }
            }
        }
        i = i + 1;
    }
    true
}

/// Decide whether a requested upgrade may proceed.
///
/// No new source configured means nothing to do.  With a new source, the
/// upgrade proceeds exactly when the candidate package version is
/// strictly newer than the running one; a downgrade or re-install is
/// refused without failing the event.  Version strings that do not
/// compare safely fail the event: ones that do not parse, and ones
/// holding numbers of twenty or more digits, which overflow the
/// package-version parser.
pub fn check_for_upgrade(source_changed: bool, current_version: &str, proposed_version: &str) -> (
    upgrade: Result<bool, String>)
    ensures
        !source_changed ==> (upgrade matches Ok(run) && !run),
        source_changed && !(spec_short_digit_runs(proposed_version@) && spec_short_digit_runs(
            current_version@,
        )) ==> upgrade is Err,
        source_changed && spec_short_digit_runs(proposed_version@) && spec_short_digit_runs(
            current_version@,
        ) ==> match deb_newer_of(proposed_version@, current_version@) {
            Some(newer) => upgrade matches Ok(run) && run == newer,
            None => upgrade is Err,
        },
{
    if !source_changed {
        return Ok(false);
    }
    if !short_digit_runs(proposed_version) || !short_digit_runs(current_version) {
        return Err(String::from_str("unable to compare package versions"));
    }
    match version_newer(proposed_version, current_version) {
        Some(newer) => Ok(newer),
        None => Err(String::from_str("unable to compare package versions")),
    }
}

/// Combine the outcomes of one configuration-changed event.
///
/// Device-scan and sysctl failures are reported by the caller but do not
/// fail the event; the event fails exactly when the upgrade path failed.
pub fn config_changed(
    new_devices: Result<(), String>,
    sysctl: Result<(), String>,
    upgrade: Result<(), String>,
) -> (hook: Result<(), String>)
    ensures
        hook is Ok <==> upgrade is Ok,
        hook matches Err(reason) ==> (upgrade matches Err(cause) && reason@ == cause@),
{
    drop_reported(new_devices);
    drop_reported(sysctl);
    match upgrade {
        Ok(()) => Ok(()),
        Err(reason) => Err(reason),
    }
}

/// Outcomes that were already reported to the operator carry no further
/// effect on the event.
fn drop_reported(outcome: Result<(), String>) {
    match outcome {
        Ok(()) => (),
        Err(_) => (),
    }
}

/// `at` is the first line of `lines` that starts with `prefix`.
pub open spec fn spec_first_line_with(
    lines: Seq<Seq<char>>,
    prefix: Seq<char>,
    at: int,
) -> bool {
    &&& 0 <= at < lines.len()
    &&& crate::text::spec_starts_with(lines[at], prefix)
    &&& forall|j: int| 0 <= j < at ==> !crate::text::spec_starts_with(#[trigger] lines[j], prefix)
}

/// Read the installed package version out of a package-status report:
/// the first line starting with `Version` must split on spaces into
/// exactly the field name and the version.  Fails when no such line
/// exists or the line has another shape.
#[verifier::loop_isolation(false)]
pub fn installed_package_version(report: &str) -> (version: Result<String, String>)
    ensures
        ({
            let lines = crate::text::spec_config_lines(report@);
            match version {
                Ok(found) => exists|at: int|
                    {
                        let parts = crate::text::spec_split(lines[at], ' ');
                        #[trigger] spec_first_line_with(lines, "Version"@, at) && parts.len() == 2
                            && found@ == parts[1]
                    },
                Err(_) => (forall|j: int|
                    0 <= j < lines.len() ==> !crate::text::spec_starts_with(
                        #[trigger] lines[j],
                        "Version"@,
                    )) || exists|at: int|
                    #[trigger] spec_first_line_with(lines, "Version"@, at)
                        && crate::text::spec_split(lines[at], ' ').len() != 2,
            }
        }),
{
    let lines = crate::text::config_lines(report);
    let ghost line_views = crate::text::spec_config_lines(report@);
    let mut i: usize = 0;
    while i < lines.len()
        invariant
            i <= lines@.len(),
            crate::text::spec_str_views(lines@) == line_views,
            forall|j: int|
                0 <= j < i ==> !crate::text::spec_starts_with(
                    #[trigger] line_views[j],
                    "Version"@,
                ),
        decreases lines@.len() - i,
    {
        if crate::text::str_starts_with(lines[i].as_str(), "Version") {
            let parts = crate::text::split_on(lines[i].as_str(), ' ');
            proof {
                assert(spec_first_line_with(line_views, "Version"@, i as int));
                assert(crate::text::spec_str_views(parts@).len() == crate::text::spec_split(
                    line_views[i as int],
                    ' ',
                ).len());
            }
            if parts.len() == 2 {
                proof {
                    assert(parts@[1]@ == crate::text::spec_split(line_views[i as int], ' ')[1]);
                }
                return Ok(parts[1].clone());
            }
            return Err(String::from_str("version line has an unexpected shape"));
        }
        i = i + 1;
    }
    Err(String::from_str("no version line found"))
}

/// `at` is the first line of `lines` that contains `pattern`.
pub open spec fn spec_first_line_containing(
    lines: Seq<Seq<char>>,
    pattern: Seq<char>,
    at: int,
) -> bool {
    &&& 0 <= at < lines.len()
    &&& crate::text::spec_contains_seq(lines[at], pattern)
    &&& forall|j: int|
        0 <= j < at ==> !crate::text::spec_contains_seq(#[trigger] lines[j], pattern)
}

/// Read the candidate package version out of a package-policy report:
/// the last space-separated word of the first line containing
/// `Candidate`.  Fails when no such line exists.
#[verifier::loop_isolation(false)]
pub fn candidate_package_version(report: &str) -> (version: Result<String, String>)
    ensures
        ({
            let lines = crate::text::spec_config_lines(report@);
            match version {
                Ok(found) => exists|at: int|
                    {
                        let parts = crate::text::spec_split(lines[at], ' ');
                        #[trigger] spec_first_line_containing(lines, "Candidate"@, at) && found@
                            == parts.last()
                    },
                Err(_) => forall|j: int|
                    0 <= j < lines.len() ==> !crate::text::spec_contains_seq(
                        #[trigger] lines[j],
                        "Candidate"@,
                    ),
            }
        }),
{
    let lines = crate::text::config_lines(report);
    let ghost line_views = crate::text::spec_config_lines(report@);
    let mut i: usize = 0;
    while i < lines.len()
        invariant
            i <= lines@.len(),
            crate::text::spec_str_views(lines@) == line_views,
            forall|j: int|
                0 <= j < i ==> !crate::text::spec_contains_seq(
                    #[trigger] line_views[j],
                    "Candidate"@,
                ),
        decreases lines@.len() - i,
    {
        if crate::text::str_contains(lines[i].as_str(), "Candidate") {
            let parts = crate::text::split_on(lines[i].as_str(), ' ');
            proof {
                assert(spec_first_line_containing(line_views, "Candidate"@, i as int));
                crate::text::lemma_split_len(line_views[i as int], ' ');
                assert(crate::text::spec_str_views(parts@).len() == crate::text::spec_split(
                    line_views[i as int],
                    ' ',
                ).len());
                assert(parts@[parts@.len() - 1]@ == crate::text::spec_split(
                    line_views[i as int],
                    ' ',
                ).last());
            }
            return Ok(parts[parts.len() - 1].clone());
        }
        i = i + 1;
    }
    Err(String::from_str("no candidate line found"))
}

/// The sysctl configuration text for a settings map: one `key=value`
/// line per entry, in order.
pub open spec fn spec_sysctl_content(settings: Seq<(Seq<char>, Seq<char>)>) -> Seq<char>
    decreases settings.len(),
{
    if settings.len() == 0 {
        Seq::empty()
    } else {
        spec_sysctl_content(settings.drop_last()) + settings.last().0 + "="@ + settings.last().1
            + "\n"@
    }
}

/// Render sysctl settings, one `key=value` line per entry, in order.
/// Parsing the configured settings text into pairs, and writing and
/// reloading the file, are the caller's work.
#[verifier::loop_isolation(false)]
pub fn create_sysctl(settings: &Vec<(String, String)>) -> (content: String)
    ensures
        content@ == spec_sysctl_content(
            settings@.map_values(|pair: (String, String)| (pair.0@, pair.1@)),
        ),
{
    let ghost pair_views = settings@.map_values(|pair: (String, String)| (pair.0@, pair.1@));
    let mut content = String::new();
    let mut i: usize = 0;
    while i < settings.len()
        invariant
            i <= settings@.len(),
            content@ == spec_sysctl_content(pair_views.take(i as int)),
        decreases settings@.len() - i,
    {
        proof {
            assert(pair_views.take(i + 1).drop_last() =~= pair_views.take(i as int));
        }
        content.append(settings[i].0.as_str());
        content.append("=");
        content.append(settings[i].1.as_str());
        content.append("\n");
        i = i + 1;
    }
    proof {
        assert(pair_views.take(settings@.len() as int) =~= pair_views);
    }
    content
}

} // verus!
