//! Output renderers for CLI reports.

use vstd::prelude::*;

use crate::report::{fixes_view, DiagnosticReport, SuggestedFix, SuggestedFixView};

verus! {

/// What `str::to_lowercase` returns for a string: its characters mapped by
/// Unicode's lowercase mapping.
pub uninterp spec fn lowercase(s: Seq<char>) -> Seq<char>;

/// Whether every character of `s` is ASCII.
pub open spec fn all_ascii(s: Seq<char>) -> bool {
    forall|i: int| 0 <= i < s.len() ==> (#[trigger] s[i] as u32) < 0x80
}

/// `s` with its ASCII capital letters made small, and nothing else changed.
pub open spec fn ascii_lower(s: Seq<char>) -> Seq<char> {
    Seq::new(
        s.len(),
        |i: int|
            if 'A' <= s[i] && s[i] <= 'Z' {
                ((s[i] as u32) + 32) as char
            } else {
                s[i]
            },
    )
}

/// Calls `str::to_lowercase`, whose result is named `lowercase` of its
/// argument: it depends on the characters of the argument alone. Of the
/// Unicode lowercase mapping it uses, only the ASCII part is stated: on
/// ASCII text, `A`–`Z` become `a`–`z` and every other character stays.
#[verifier::external_body]
fn to_lowercase(s: &str) -> (r: String)
    ensures
        r@ == lowercase(s@),
        all_ascii(s@) ==> r@ == ascii_lower(s@),
{
    s.to_lowercase()
}

/// The icon that marks a fix: a lock where it needs a contract upgrade,
/// a clipboard where it comes with an example, a wrench otherwise.
pub open spec fn fix_icon(f: SuggestedFixView) -> Seq<char> {
    if f.requires_upgrade {
        "🔒"@
    } else if f.example is Some {
        "📋"@
    } else {
        "🔧"@
    }
}

/// The badge for a difficulty that is already in lower case.
pub open spec fn badge(lowered: Seq<char>) -> Seq<char> {
    if lowered == "easy"@ {
        " [easy]"@
    } else if lowered == "medium"@ {
        " [medium]"@
    } else if lowered == "hard"@ {
        " [hard]"@
    } else {
        Seq::empty()
    }
}

/// The lines that render one fix.
pub open spec fn fix_lines(f: SuggestedFixView) -> Seq<char> {
    "  "@ + fix_icon(f) + " "@ + f.description + badge(lowercase(f.difficulty)) + "\n"@ + (if f.requires_upgrade {
        "    ⚡ May require contract upgrade\n"@
    } else {
        Seq::empty()
    }) + match f.example {
        Some(e) => "    📄 Example: "@ + e + "\n"@,
        None => Seq::empty(),
    }
}

/// The fixes rendered one after the other, a blank line between two.
pub open spec fn fix_blocks(fs: Seq<SuggestedFixView>) -> Seq<char>
    decreases fs.len(),
{
    if fs.len() == 0 {
        Seq::empty()
    } else if fs.len() == 1 {
        fix_lines(fs[0])
    } else {
        fix_blocks(fs.drop_last()) + "\n"@ + fix_lines(fs.last())
    }
}

/// The rendered list of fixes: nothing where there are none.
pub open spec fn fix_list(fs: Seq<SuggestedFixView>) -> Seq<char> {
    if fs.len() == 0 {
        Seq::empty()
    } else {
        "Actionable Fixes:\n"@ + fix_blocks(fs)
    }
}

/// Returns the appropriate icon for a suggested fix based on its characteristics.
pub fn get_fix_icon(fix: &SuggestedFix) -> (r: &'static str)
    ensures
        r@ == fix_icon(fix@),
{
    if fix.requires_upgrade {
        "🔒"
    } else if fix.example.is_some() {
        "📋"
    } else {
        "🔧"
    }
}

/// The badge for a difficulty already in lower case: ` [easy]`, ` [medium]`
/// or ` [hard]`, and nothing for any other text.
pub fn badge_for_lowercase(lowered: &str) -> (r: String)
    ensures
        r@ == badge(lowered@),
{
    let v = crate::text::chars_of(lowered);
    if crate::text::chars_eq_str(&v, "easy") {
        " [easy]".to_owned()
    } else if crate::text::chars_eq_str(&v, "medium") {
        " [medium]".to_owned()
    } else if crate::text::chars_eq_str(&v, "hard") {
        " [hard]".to_owned()
    } else {
        String::new()
    }
}

/// Returns a badge indicating the difficulty level of the fix, whatever the
/// letter case of `difficulty`.
pub fn get_difficulty_badge(difficulty: &str) -> (r: String)
    ensures
        r@ == badge(lowercase(difficulty@)),
        all_ascii(difficulty@) ==> r@ == badge(ascii_lower(difficulty@)),
{
    let lowered = to_lowercase(difficulty);
    badge_for_lowercase(lowered.as_str())
}

fn push_fix_lines(out: &mut String, fix: &SuggestedFix)
    ensures
        final(out)@ == old(out)@ + fix_lines(fix@),
{
    out.append("  ");
    out.append(get_fix_icon(fix));
    out.append(" ");
    out.append(fix.description.as_str());
    let b = get_difficulty_badge(fix.difficulty.as_str());
    out.append(b.as_str());
    out.append("\n");
    let ghost head = out@;
    if fix.requires_upgrade {
        out.append("    ⚡ May require contract upgrade\n");
    }
    let ghost mid = out@;
    match &fix.example {
        Some(e) => {
            out.append("    📄 Example: ");
            out.append(e.as_str());
            out.append("\n");
        },
        None => {},
    }
    let ghost f = fix@;
    let ghost up = if f.requires_upgrade {
        "    ⚡ May require contract upgrade\n"@
    } else {
        Seq::<char>::empty()
    };
    let ghost ex = match f.example {
        Some(e) => "    📄 Example: "@ + e + "\n"@,
        None => Seq::<char>::empty(),
    };
    assert(mid =~= head + up);
    assert(out@ =~= mid + ex);
    assert(out@ =~= old(out)@ + fix_lines(f));
}

/// Renders a bulleted list of suggested fixes from the diagnostic report.
///
/// Each fix is displayed with a distinctive icon indicating its characteristics:
/// - 🔧 for standard fixes
/// - 🔒 for fixes that require a contract upgrade
/// - 📋 for fixes with code examples
pub fn render_fix_list(report: &DiagnosticReport) -> (r: String)
    ensures
        r@ == fix_list(fixes_view(report.suggested_fixes@)),
{
    let fixes = &report.suggested_fixes;
    let ghost fs = fixes_view(fixes@);
    if fixes.len() == 0 {
        return String::new();
    }
    let mut output = String::new();
    output.append("Actionable Fixes:\n");
    let ghost header = output@;
    let mut i: usize = 0;
    while i < fixes.len()
        invariant
            i <= fixes.len(),
            fs == fixes_view(fixes@),
            fs.len() == fixes.len(),
            header == "Actionable Fixes:\n"@,
            output@ == header + fix_blocks(fs.take(i as int)),
        decreases fixes.len() - i,
    {
        let ghost before = output@;
        if i > 0 {
            output.append("\n");
        }
        push_fix_lines(&mut output, &fixes[i]);
        assert(fs[i as int] == fixes@[i as int]@);
        assert(fs.take(i + 1).drop_last() =~= fs.take(i as int));
        if i == 0 {
            assert(fs.take(1) =~= seq![fs[0]]);
            assert(output@ =~= header + fix_blocks(fs.take(i + 1)));
        } else {
            assert(output@ =~= header + fix_blocks(fs.take(i + 1)));
        }
        i = i + 1;
    }
    assert(fs.take(fixes.len() as int) =~= fs);
    output
}

/// A report renders to an empty fix list exactly when it suggests no fix.
pub proof fn law_fix_list_empty_iff_no_fixes(fs: Seq<SuggestedFixView>)
    ensures
        (fix_list(fs).len() == 0) <==> (fs.len() == 0),
{
    reveal_strlit("Actionable Fixes:\n");
}

/// A fix that needs a contract upgrade is marked by the lock, whatever else
/// it carries; otherwise one with an example is marked by the clipboard.
pub proof fn law_icon_precedence(f: SuggestedFixView)
    ensures
        f.requires_upgrade ==> fix_icon(f) == "🔒"@,
        !f.requires_upgrade && f.example is Some ==> fix_icon(f) == "📋"@,
        !f.requires_upgrade && f.example is None ==> fix_icon(f) == "🔧"@,
{
}

/// The fix list is built one fix at a time, each fix in full and in order:
/// no fixes render to nothing, one fix to the header and its lines, and one
/// more fix appends a blank line and its lines to what came before.
pub proof fn law_every_fix_is_rendered(fs: Seq<SuggestedFixView>, f: SuggestedFixView)
    ensures
        fix_list(Seq::empty()) == Seq::<char>::empty(),
        fix_list(seq![f]) == "Actionable Fixes:\n"@ + fix_lines(f),
        fs.len() > 0 ==> fix_list(fs.push(f)) == fix_list(fs) + "\n"@ + fix_lines(f),
{
    let one = seq![f];
    assert(fix_blocks(one) == fix_lines(f));
    if fs.len() > 0 {
        let g = fs.push(f);
        assert(g.drop_last() =~= fs);
        assert(g.last() == f);
        assert(fix_blocks(g) == fix_blocks(fs) + "\n"@ + fix_lines(f));
        assert("Actionable Fixes:\n"@ + (fix_blocks(fs) + "\n"@ + fix_lines(f)) =~= (
        "Actionable Fixes:\n"@ + fix_blocks(fs)) + "\n"@ + fix_lines(f));
    }
}

/// Whether `s` starts with `p`.
pub open spec fn starts_with(s: Seq<char>, p: Seq<char>) -> bool {
    p.len() <= s.len() && s.take(p.len() as int) == p
}

/// Whether `s` ends with `p`.
pub open spec fn ends_with(s: Seq<char>, p: Seq<char>) -> bool {
    p.len() <= s.len() && s.skip(s.len() - p.len()) == p
}

/// How one fix is rendered: its line opens with two spaces, its icon, a
/// space and its description, and ends the line; a fix that needs a
/// contract upgrade says so on the next line; one with an example ends
/// with that example on a line of its own; and no other fix ends so.
pub proof fn law_fix_lines_shape(f: SuggestedFixView)
    ensures
        starts_with(fix_lines(f), "  "@ + fix_icon(f) + " "@ + f.description),
        ends_with(fix_lines(f), "\n"@),
        f.requires_upgrade ==> starts_with(
            fix_lines(f),
            "  "@ + fix_icon(f) + " "@ + f.description + badge(lowercase(f.difficulty)) + "\n"@
                + "    ⚡ May require contract upgrade\n"@,
        ),
        f.example matches Some(e) ==> ends_with(fix_lines(f), "    📄 Example: "@ + e + "\n"@),
        f.example is None && !f.requires_upgrade ==> fix_lines(f) == "  "@ + fix_icon(f) + " "@
            + f.description + badge(lowercase(f.difficulty)) + "\n"@,
{
    let head = "  "@ + fix_icon(f) + " "@ + f.description;
    let line = head + badge(lowercase(f.difficulty)) + "\n"@;
    let up = if f.requires_upgrade {
        "    ⚡ May require contract upgrade\n"@
    } else {
        Seq::<char>::empty()
    };
    let ex = match f.example {
        Some(e) => "    📄 Example: "@ + e + "\n"@,
        None => Seq::<char>::empty(),
    };
    reveal_strlit("\n");
    reveal_strlit("    ⚡ May require contract upgrade\n");
    let all = fix_lines(f);
    assert(all =~= line + up + ex);
    assert(all.take(head.len() as int) =~= head);
    if f.requires_upgrade {
        assert(all.take((line + up).len() as int) =~= line + up);
    }
    if let Some(e) = f.example {
        assert(all.skip(all.len() - ex.len()) =~= ex);
        assert(ex.skip(ex.len() - 1) =~= "\n"@);
        assert(all.skip(all.len() - 1) =~= ex.skip(ex.len() - 1));
    } else if f.requires_upgrade {
        assert(all.skip(all.len() - 1) =~= "\n"@);
    } else {
        assert(all =~= line);
        assert(all.skip(all.len() - 1) =~= "\n"@);
    }
}

} // verus!
