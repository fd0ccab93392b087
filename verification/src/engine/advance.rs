//! What is said when a task is complete.

use vstd::prelude::*;

use crate::text::{join, join_strs, lines, lines_of};

verus! {

/// Each line with two spaces in front.
pub open spec fn indented(items: Seq<Seq<char>>) -> Seq<Seq<char>> {
    items.map_values(|line: Seq<char>| "  "@ + line)
}

/// What is said of the commits that were made before.
pub open spec fn convention_section(log: Option<Seq<char>>) -> Seq<char> {
    match log {
        Some(text) => "Recent commits for convention reference:\n"@ + join(
            indented(lines(text)),
            "\n"@,
        ),
        None => "No recent commits found."@,
    }
}

fn write_convention(log: Option<&str>) -> (r: String)
    ensures
        r@ == convention_section(log.deep_view()),
{
    match log {
        Some(text) => {
            let items: Vec<String> = lines_of(text);
            let ghost all = indented(items.deep_view());
            let mut out: Vec<String> = Vec::new();
            let mut i: usize = 0;
            while i < items.len()
                invariant
                    i <= items.len(),
                    all == indented(items.deep_view()),
                    out.deep_view() == all.take(i as int),
                decreases items.len() - i,
            {
                let ghost before = out.deep_view();
                let mut line = "  ".to_owned();
                line.push_str(items[i].as_str());
                out.push(line);
                assert(out.deep_view() =~= before.push(all[i as int]));
                assert(all.take(i + 1) =~= all.take(i as int).push(all[i as int]));
                i = i + 1;
            }
            assert(all.take(i as int) =~= all);
            let mut section = "Recent commits for convention reference:\n".to_owned();
            section.push_str(join_strs(&out, "\n").as_str());
            section
        },
        None => "No recent commits found.".to_owned(),
    }
}

/// The request to commit the work on a task.
pub open spec fn commit_request(id: Seq<char>, title: Seq<char>, log: Option<Seq<char>>) -> Seq<char> {
    "# Commit\n\nTask "@ + id + " \""@ + title + "\" is complete — please commit.\n\n"@
        + convention_section(log) + "\n\nSuggested commit message:\n  feat("@ + id + "): "@ + title
}

/// The request to commit the work on a task.
pub fn commit_prompt(task_id: &str, task_title: &str, commit_convention: Option<&str>) -> (r: String)
    ensures
        r@ == commit_request(task_id@, task_title@, commit_convention.deep_view()),
{
    let mut out = "# Commit\n\nTask ".to_owned();
    out.push_str(task_id);
    out.push_str(" \"");
    out.push_str(task_title);
    out.push_str("\" is complete — please commit.\n\n");
    out.push_str(write_convention(commit_convention).as_str());
    out.push_str("\n\nSuggested commit message:\n  feat(");
    out.push_str(task_id);
    out.push_str("): ");
    out.push_str(task_title);
    out
}

} // verus!
