//! What the settings of a user mean, where the state of a project is kept, and what is shown of
//! single tasks and downloads.

use vstd::prelude::*;

use crate::commands::blocked::{blocked_shown, blocked_tasks, BlockedRow, IsBlocked};
use crate::commands::config::{
    canonical, key_named, law_settings_are_found, setting_changed, settings_shown, settings_text,
    with_setting, ConfigCommandErrorView, ConfigKey,
};
use crate::commands::init::{facts_in, facts_of};
use crate::commands::report::ProjectFilesView;
use crate::commands::runner::{at_hand, text_or, RunnerStatusOutputView};
use crate::commands::self_update::{
    bar, named, part_of, platform_asset, progress_line, speed, update_step, GithubReleaseView,
    ReleaseSeenView, SelfUpdateErrorView, UpdateStepView,
};
use crate::commands::status::{
    by_id, dependency_list, detail_text, history_lines, phase_lines, retries, task_detail,
    HistoryRow,
};
use crate::commands::task_command_laws::finds;
use crate::engine::config::ConfigView;
use crate::engine::global_config::{
    digit_run, duration_seconds, loaded_global, merged_global, permission_modes, saved_global,
    GlobalConfigView, GlobalReadView, OnRetryExhausted, RunnerConfigView, SaveGlobalConfigErrorView,
    TextReadView,
};
use crate::engine::hooks::{loaded_hooks, HookConfigErrorView, HookConfigView, HooksReadView};
use crate::engine::project::{
    base_name, holds_git, sha256_hex, slug_of, AncestorView, CandidateResolution, CandidateSeenView,
    ProjectView,
};
use crate::engine::prompt_laws::{lemma_join_says, lemma_says, says};
use crate::engine::runner::{runner_stepped, RunnerStoreErrorView, RunnerStoreView, RunnerView};
use crate::engine::tasks::{
    stepped, HistoryEntry, StoreErrorView, Task, TaskPhaseView, TaskStoreView, TaskView,
};
use crate::json_doc::json_parsed;
use crate::rows::{choice, rows_of};
use crate::text::{
    all_digits, decimal, digits_value, first_where, is_digit, join, law_keeping_is_filtering,
    lemma_after_last, lemma_first_where, path_join, trim,
};
use crate::toml_doc::{toml_parsed, toml_rendered};

verus! {

/// The settings have names, and each is shown and set in the field that it stands for.
pub proof fn law_settings_have_names(config: GlobalConfigView, value: Seq<char>)
    ensures
        key_named("hook_debug"@) == Some(ConfigKey::HookDebug),
        key_named("default_max_retries"@) == Some(ConfigKey::DefaultMaxRetries),
        key_named("on_retry_exhausted"@) == Some(ConfigKey::OnRetryExhausted),
        key_named("runner.auto_start"@) == Some(ConfigKey::RunnerAutoStart),
        key_named("runner.lease_ttl"@) == Some(ConfigKey::RunnerLeaseTtl),
        key_named("runner.type"@) == Some(ConfigKey::RunnerType),
        canonical("hook-debug"@) == "hook_debug"@,
        canonical("default-max-retries"@) == "default_max_retries"@,
        with_setting(config, ConfigKey::HookDebug, "true"@) == Ok::<
            GlobalConfigView,
            ConfigCommandErrorView,
        >((GlobalConfigView { hook_debug: true, ..config })),
        with_setting(config, ConfigKey::HookDebug, "false"@) == Ok::<
            GlobalConfigView,
            ConfigCommandErrorView,
        >((GlobalConfigView { hook_debug: false, ..config })),
        with_setting(config, ConfigKey::OnRetryExhausted, "block"@) == Ok::<
            GlobalConfigView,
            ConfigCommandErrorView,
        >((GlobalConfigView { on_retry_exhausted: OnRetryExhausted::Block, ..config })),
        with_setting(config, ConfigKey::OnRetryExhausted, "fail"@) == Ok::<
            GlobalConfigView,
            ConfigCommandErrorView,
        >((GlobalConfigView { on_retry_exhausted: OnRetryExhausted::Fail, ..config })),
        with_setting(config, ConfigKey::RunnerAutoStart, "true"@) == Ok::<
            GlobalConfigView,
            ConfigCommandErrorView,
        >(
            (GlobalConfigView {
                runner: RunnerConfigView { auto_start: true, ..config.runner },
                ..config
            }),
        ),
        with_setting(config, ConfigKey::RunnerAutoStart, "false"@) == Ok::<
            GlobalConfigView,
            ConfigCommandErrorView,
        >(
            (GlobalConfigView {
                runner: RunnerConfigView { auto_start: false, ..config.runner },
                ..config
            }),
        ),
        with_setting(config, ConfigKey::RunnerType, value) == Ok::<
            GlobalConfigView,
            ConfigCommandErrorView,
        >(
            (GlobalConfigView {
                runner: RunnerConfigView { runner_type: value, ..config.runner },
                ..config
            }),
        ),
        with_setting(config, ConfigKey::RunnerLeaseTtl, value) is Ok <==> duration_seconds(value)
            is Ok,
        value != "true"@ && value != "false"@ ==> with_setting(config, ConfigKey::HookDebug, value)
            is Err && with_setting(config, ConfigKey::RunnerAutoStart, value) is Err,
        value != "block"@ && value != "fail"@ ==> with_setting(
            config,
            ConfigKey::OnRetryExhausted,
            value,
        ) is Err,
        crate::commands::config::setting(config, ConfigKey::HookDebug) == if config.hook_debug {
            "true"@
        } else {
            "false"@
        },
        crate::commands::config::setting(config, ConfigKey::RunnerAutoStart) == if config.runner.auto_start {
            "true"@
        } else {
            "false"@
        },
        crate::commands::config::setting(config, ConfigKey::DefaultMaxRetries) == decimal(config.default_max_retries as nat),
        crate::commands::config::setting(config, ConfigKey::RunnerLeaseTtl) == config.runner.lease_ttl,
        crate::commands::config::setting(config, ConfigKey::RunnerType) == config.runner.runner_type,
{
    reveal_strlit("hook_debug");
    reveal_strlit("default_max_retries");
    reveal_strlit("on_retry_exhausted");
    reveal_strlit("runner.auto_start");
    reveal_strlit("runner.lease_ttl");
    reveal_strlit("runner.type");
    reveal_strlit("hook-debug");
    reveal_strlit("default-max-retries");
    reveal_strlit("true");
    reveal_strlit("false");
    reveal_strlit("block");
    reveal_strlit("fail");
    assert("hook_debug"@.len() == 10);
    assert("default_max_retries"@.len() == 19);
    assert("on_retry_exhausted"@.len() == 18);
    assert("runner.auto_start"@.len() == 17);
    assert("runner.lease_ttl"@.len() == 16);
    assert("runner.type"@.len() == 11);
    assert("hook-debug"@.len() == 10);
    assert("default-max-retries"@.len() == 19);
    assert("true"@.len() == 4 && "false"@.len() == 5);
    assert("block"@.len() == 5 && "fail"@.len() == 4);
}

/// A duration is a whole number above zero and a unit: seconds, minutes, hours or days.
pub proof fn law_duration_is_read(digits: Seq<char>, unit: Seq<char>)
    requires
        all_digits(digits),
        0 < digits_value(digits) <= i64::MAX,
        unit.len() > 0,
        !is_digit(unit[0]),
        trim(digits + unit) == digits + unit,
    ensures
        unit == "s"@ ==> duration_seconds(digits + unit) == Ok::<int, Seq<char>>(
            digits_value(digits) as int,
        ),
        unit == "m"@ ==> duration_seconds(digits + unit) == Ok::<int, Seq<char>>(
            (digits_value(digits) * 60) as int,
        ),
        unit == "h"@ ==> duration_seconds(digits + unit) == Ok::<int, Seq<char>>(
            (digits_value(digits) * 3600) as int,
        ),
        unit == "d"@ ==> duration_seconds(digits + unit) == Ok::<int, Seq<char>>(
            (digits_value(digits) * 86400) as int,
        ),
        unit != "s"@ && unit != "m"@ && unit != "h"@ && unit != "d"@ ==> duration_seconds(
            digits + unit,
        ) is Err,
{
    lemma_digit_run(digits, unit);
    let t = digits + unit;
    assert(t.take(digits.len() as int) =~= digits);
    assert(t.skip(digits.len() as int) =~= unit);
    reveal_strlit("s");
    reveal_strlit("m");
    reveal_strlit("h");
    reveal_strlit("d");
    assert("s"@[0] == 's' && "m"@[0] == 'm' && "h"@[0] == 'h' && "d"@[0] == 'd');
}

proof fn lemma_digit_run(digits: Seq<char>, unit: Seq<char>)
    requires
        forall|k: int| 0 <= k < digits.len() ==> is_digit(#[trigger] digits[k]),
        unit.len() > 0,
        !is_digit(unit[0]),
    ensures
        digit_run(digits + unit) == digits.len(),
    decreases digits.len(),
{
    let t = digits + unit;
    if digits.len() > 0 {
        let rest = digits.skip(1);
        assert forall|k: int| 0 <= k < rest.len() implies is_digit(#[trigger] rest[k]) by {
            assert(rest[k] == digits[k + 1]);
        }
        lemma_digit_run(rest, unit);
        assert(t.skip(1) =~= rest + unit);
        assert(t[0] == digits[0]);
    } else {
        assert(t[0] == unit[0]);
    }
}

/// Where a user has no settings there are usual ones; settings whose lease or permissions cannot be
/// used are refused, and others are used as they are written.
pub proof fn law_loaded_settings(agira_root: Seq<char>, program: Seq<char>, config: GlobalConfigView)
    ensures
        ({
            let usual = loaded_global(agira_root, program, GlobalReadView::Missing);
            let read = loaded_global(agira_root, program, GlobalReadView::Parsed { config });
            let mode = config.runner.claude.permission_mode;
            &&& usual is Ok
            &&& usual->Ok_0.default_max_retries == 3
            &&& !usual->Ok_0.hook_debug
            &&& usual->Ok_0.on_retry_exhausted == OnRetryExhausted::Block
            &&& usual->Ok_0.runner.lease_ttl == "5m"@
            &&& usual->Ok_0.runner.runner_type == program + "-tmux"@
            &&& !usual->Ok_0.runner.auto_start
            &&& usual->Ok_0.runner.claude.command == program
            &&& usual->Ok_0.runner.claude.model == "sonnet"@
            &&& usual->Ok_0.runner.claude.permission_mode == "auto"@
            &&& read is Ok <==> duration_seconds(config.runner.lease_ttl) is Ok && (mode == "auto"@
                || mode == "acceptEdits"@ || mode == "bypassPermissions"@ || mode == "dontAsk"@
                || mode == "default"@ || mode == "plan"@)
            &&& read is Ok ==> read->Ok_0 == config
        }),
{
    let modes = permission_modes();
    assert(modes[0] == "auto"@ && modes[1] == "acceptEdits"@ && modes[2] == "bypassPermissions"@
        && modes[3] == "dontAsk"@ && modes[4] == "default"@ && modes[5] == "plan"@);
    let mode = config.runner.claude.permission_mode;
    if modes.contains(mode) {
        let k = modes.index_of(mode);
        assert(0 <= k < 6);
    }
}

/// A slug is the last part of a path with small letters and digits kept, capitals made small, and
/// everything else a hyphen.
pub proof fn law_slug_of_a_path(parent: Seq<char>, name: Seq<char>, k: int)
    requires
        !name.contains('/'),
        0 <= k < name.len(),
    ensures
        base_name(parent.push('/') + name) == name,
        slug_of(name).len() == name.len(),
        97 <= name[k] as u32 <= 122 || 48 <= name[k] as u32 <= 57 ==> slug_of(name)[k] == name[k],
        65 <= name[k] as u32 <= 90 ==> slug_of(name)[k] as u32 == name[k] as u32 + 32,
        !(97 <= name[k] as u32 <= 122) && !(48 <= name[k] as u32 <= 57) && !(65 <= name[k] as u32 <= 90)
            ==> slug_of(name)[k] == '-',
{
    lemma_after_last(parent, '/', name);
}

/// The state of a project is kept under its slug, unless another project is kept there; then under
/// its slug with a part of a hash behind it.
pub proof fn law_state_is_kept_apart(
    git_root: Seq<char>,
    agira_root: Seq<char>,
    other: Seq<char>,
    hashed: CandidateSeenView,
)
    requires
        other != git_root + "\n"@,
    ensures
        ({
            let slug = slug_of(base_name(git_root));
            let longer = slug + "-"@ + sha256_hex(git_root).take(6);
            let free = crate::engine::project::placed(git_root, agira_root, CandidateSeenView::Missing, hashed);
            let taken = crate::engine::project::placed(
                git_root,
                agira_root,
                CandidateSeenView::Owned { source_path: other },
                CandidateSeenView::Missing,
            );
            &&& free is Ok
            &&& free->Ok_0.slug == slug
            &&& free->Ok_0.state_dir == path_join(agira_root, slug)
            &&& free->Ok_0.resolution == CandidateResolution::Create
            &&& taken is Ok
            &&& taken->Ok_0.slug == longer
            &&& taken->Ok_0.state_dir == path_join(agira_root, longer)
            &&& taken->Ok_0.resolution == CandidateResolution::Create
            &&& crate::engine::project::placed(
                git_root,
                agira_root,
                CandidateSeenView::Unowned { empty: true },
                hashed,
            ) matches Ok(p) && p.slug == slug && p.resolution == CandidateResolution::Claim
            &&& crate::engine::project::placed(
                git_root,
                agira_root,
                CandidateSeenView::Unowned { empty: false },
                CandidateSeenView::Owned { source_path: git_root + "\n"@ },
            ) matches Ok(p) && p.slug == longer && p.resolution == CandidateResolution::Use
            &&& crate::engine::project::placed(
                git_root,
                agira_root,
                CandidateSeenView::Owned { source_path: other },
                CandidateSeenView::Owned { source_path: other },
            ) is Err
            &&& crate::engine::project::placed(git_root, agira_root, CandidateSeenView::NotDirectory, hashed) is Err
        }),
{
}

/// The blocked tasks are those in the state for it, in the order of their ids.
pub proof fn law_blocked_tasks_in_order(tasks: Seq<TaskView>, k: int)
    ensures
        blocked_tasks(tasks) == by_id(tasks).filter(|t: TaskView| t.state == "blocked"@),
        0 <= k < blocked_tasks(tasks).len() ==> ({
            let t = blocked_tasks(tasks)[k];
            let text = crate::commands::blocked::blocked_text(blocked_tasks(tasks));
            let at = if t.blocked_at_phase is Some {
                t.blocked_at_phase->0
            } else {
                "-"@
            };
            says(text, "ID: "@ + t.id + "\nTitle: "@ + t.title + "\nBlocked at phase: "@ + at)
        }),
{
    let p = choice::<Task, (), IsBlocked>(());
    let q = |t: TaskView| t.state == "blocked"@;
    assert(p =~= q);
    law_keeping_is_filtering(by_id(tasks), q);
    let found = blocked_tasks(tasks);
    if 0 <= k < found.len() {
        lemma_says();
        let rows = rows_of::<Task, (), BlockedRow>(found, ());
        lemma_join_says(rows, "\n\n"@, k);
        let t = found[k];
        let head = "ID: "@ + t.id + "\nTitle: "@ + t.title + "\nBlocked at phase: "@ + text_or(
            t.blocked_at_phase,
            "-"@,
        );
        assert(says(rows[k], head));
        lemma_says_through(
            crate::commands::blocked::blocked_text(found),
            rows[k],
            head,
        );
    }
}

proof fn lemma_says_through(whole: Seq<char>, part: Seq<char>, piece: Seq<char>)
    requires
        says(whole, part),
        says(part, piece),
    ensures
        says(whole, piece),
{
    lemma_says();
    let (a, b) = choose|a: Seq<char>, b: Seq<char>| whole == #[trigger] (a + part + b);
    assert(says(a + part, piece));
    assert(says(a + part + b, piece));
}

/// The details of a task tell all of it: what it is, where it stands, what it depends on, what came
/// out of each phase, and each of its moves.
#[verifier::spinoff_prover]
#[verifier::rlimit(60)]
pub proof fn law_detail_tells_the_task(t: TaskView, k: int, h: int)
    ensures
        ({
            let text = task_detail(t);
            &&& says(text, "ID:           "@ + t.id)
            &&& says(text, "\nTitle:        "@ + t.title)
            &&& says(text, "\nState:        "@ + t.state)
            &&& says(text, "\nWorkflow:     "@ + t.workflow)
            &&& says(text, "\nCreated:      "@ + t.created_at)
            &&& says(
                text,
                "\nRetries:      "@ + (decimal(t.retry_count as nat) + "/"@ + decimal(
                    t.max_retries as nat,
                )),
            )
            &&& t.dependencies.len() > 0 ==> says(
                text,
                "\nDepends on:   "@ + join(t.dependencies, ", "@),
            )
            &&& t.blocked_at_phase is Some && t.blocked_reason is Some ==> says(
                text,
                "\nBlocked:      "@ + (t.blocked_at_phase->0 + " — "@ + t.blocked_reason->0),
            )
            &&& 0 <= k < t.phases.len() ==> says(
                text,
                "  "@ + t.phases[k].0 + " (completed "@ + t.phases[k].1.completed_at + "):\n"@
                    + detail_text(t.phases[k].1.artifact, 4) + "\n"@,
            )
            &&& 0 <= h < t.history.len() ==> says(
                text,
                " → "@ + t.history[h].to + "  "@ + t.history[h].timestamp + "  "@
                    + t.history[h].reason,
            )
            &&& 0 <= h < t.history.len() && t.history[h].from is Some ==> says(
                text,
                "  "@ + t.history[h].from->0 + " → "@ + t.history[h].to,
            )
        }),
{
    lemma_says();
    let a = "ID:           "@ + t.id;
    let b = "\nTitle:        "@ + t.title;
    let c = "\nState:        "@ + t.state;
    let d = "\nWorkflow:     "@ + t.workflow;
    let e = "\nCreated:      "@ + t.created_at;
    let f = "\nRetries:      "@ + retries(t);
    let g = "\nDepends on:   "@ + dependency_list(t);
    let l = "\nBlocked:      "@ + crate::commands::status::blocked_text(t);
    let m = "\nDescription:\n"@ + detail_text(t.description, 2) + "\nPhases:\n"@;
    let n = if t.phases.len() == 0 {
        "  —\n"@
    } else {
        phase_lines(t.phases)
    };
    let o = "History:\n"@ + history_lines(t.history);
    assert(task_detail(t) =~= a + b + c + d + e + f + g + l + m + n + o);
    if 0 <= k < t.phases.len() {
        lemma_phase_lines(t.phases, k);
    }
    if 0 <= h < t.history.len() {
        let rows = rows_of::<HistoryEntry, (), HistoryRow>(t.history, ());
        lemma_join_says(rows, "\n"@, h);
        let x = t.history[h];
        let tail = " → "@ + x.to + "  "@ + x.timestamp + "  "@ + x.reason;
        let front = "  "@ + text_or(x.from, "(none)"@);
        assert(rows[h] =~= front + tail);
        lemma_says_through(history_lines(t.history), rows[h], tail);
        if x.from is Some {
            let head = "  "@ + x.from->0 + " → "@ + x.to;
            assert(rows[h] =~= head + ("  "@ + x.timestamp + "  "@ + x.reason));
            lemma_says_through(history_lines(t.history), rows[h], head);
        }
    }
}

proof fn lemma_phase_lines(phases: Seq<(Seq<char>, TaskPhaseView)>, k: int)
    requires
        0 <= k < phases.len(),
    ensures
        says(
            phase_lines(phases),
            "  "@ + phases[k].0 + " (completed "@ + phases[k].1.completed_at + "):\n"@
                + detail_text(phases[k].1.artifact, 4) + "\n"@,
        ),
    decreases phases.len(),
{
    lemma_says();
    let front = phases.drop_last();
    let (name, phase) = phases.last();
    let part = "  "@ + name + " (completed "@ + phase.completed_at + "):\n"@ + detail_text(
        phase.artifact,
        4,
    ) + "\n"@;
    assert(phase_lines(phases) =~= phase_lines(front) + part);
    if k < front.len() {
        lemma_phase_lines(front, k);
    }
}

/// The file to install is the one for the platform, from a release whose version is another one than
/// that of the program.
pub proof fn law_update_is_decided(
    os: Seq<char>,
    arch: Seq<char>,
    release: GithubReleaseView,
    current: Seq<char>,
    version: Seq<char>,
    i: int,
)
    requires
        release.tag_name == "v"@ + version,
    ensures
        ({
            let r = update_step(os, arch, ReleaseSeenView::Release { release }, current);
            let name = if os == "macos"@ && arch == "aarch64"@ {
                Some("agira-aarch64-apple-darwin"@)
            } else if os == "macos"@ && arch == "x86_64"@ {
                Some("agira-x86_64-apple-darwin"@)
            } else if os == "linux"@ && arch == "x86_64"@ {
                Some("agira-x86_64-unknown-linux-gnu"@)
            } else {
                None
            };
            let first = 0 <= i < release.assets.len() && Some(release.assets[i].name) == name
                && forall|j: int|
                0 <= j < i ==> Some((#[trigger] release.assets[j]).name) != name;
            &&& name is None ==> r is Err
            &&& name is Some && version == current ==> r == Ok::<
                UpdateStepView,
                SelfUpdateErrorView,
            >(
                UpdateStepView::UpToDate {
                    message: "agira is already up to date (v"@ + version + ")"@,
                },
            )
            &&& name is Some && version != current && first ==> r == Ok::<
                UpdateStepView,
                SelfUpdateErrorView,
            >(
                UpdateStepView::Install {
                    url: release.assets[i].browser_download_url,
                    message: "updated to v"@ + version,
                },
            )
            &&& name is Some && version != current && (forall|j: int|
                0 <= j < release.assets.len() ==> Some((#[trigger] release.assets[j]).name)
                    != name) ==> r is Err
        }),
{
    reveal_strlit("v");
    assert(("v"@ + version).take("v"@.len() as int) =~= "v"@);
    assert(("v"@ + version).skip("v"@.len() as int) =~= version);
    match platform_asset(os, arch) {
        Ok(name) => {
            let p = named(name);
            lemma_first_where(release.assets, p);
            if first_where(release.assets, p) is Some {
                let f = first_where(release.assets, p)->0;
                assert(p(release.assets[f]));
                assert(Some(release.assets[f].name) == Some(name));
                if 0 <= i < f && release.assets[i].name == name {
                    assert(p(release.assets[i]));
                }
            } else if 0 <= i < release.assets.len() {
                assert(!p(release.assets[i]));
            }
        },
        Err(_) => {},
    }
}

/// The part of a whole that is there is told in steps, cut to whole ones, and is the whole where all
/// of it is there.
pub proof fn law_part_is_cut(part: nat, whole: nat, steps: nat)
    ensures
        part >= whole ==> part_of(part, whole, steps) == steps,
        part < whole ==> part_of(part, whole, steps) * whole <= part * steps < (part_of(
            part,
            whole,
            steps,
        ) + 1) * whole,
{
    if part < whole {
        let scaled = part * steps;
        vstd::arithmetic::div_mod::lemma_fundamental_div_mod(scaled as int, whole as int);
        let q = part_of(part, whole, steps);
        assert(q == scaled / whole);
        let r = scaled as int % whole as int;
        assert(0 <= r < whole);
        assert((whole as int) * (q as int) == (q as int) * (whole as int)) by (nonlinear_arith);
        assert((q as int + 1) * (whole as int) == (q as int) * (whole as int) + whole)
            by (nonlinear_arith);
    }
}

/// A line about a download tells how much is there, of how much, and how fast it came.
pub proof fn law_download_is_told(downloaded: nat, total: u64, millis: nat)
    requires
        millis > 0,
        downloaded <= 0xffff_ffff_ffff,
    ensures
        ({
            let line = progress_line(downloaded, Some(total), millis);
            let known = decimal(downloaded) + " B / "@ + (decimal(total as nat) + " B"@);
            &&& says(line, known)
            &&& says(line, decimal(part_of(downloaded, total as nat, 100)) + "%"@)
            &&& says(line, decimal(downloaded * 1000 / millis) + " B/s"@)
            &&& says(
                progress_line(downloaded, None, millis),
                decimal(downloaded) + " B / "@ + "unknown"@,
            )
        }),
{
    lemma_says();
    let s = downloaded * 1000 / millis;
    assert(s <= downloaded * 1000) by {
        vstd::arithmetic::div_mod::lemma_div_is_ordered_by_denominator(
            (downloaded * 1000) as int,
            1,
            millis as int,
        );
        vstd::arithmetic::div_mod::lemma_div_basics((downloaded * 1000) as int);
    }
    vstd::arithmetic::div_mod::lemma_small_mod(s, 0x1_0000_0000_0000_0000);
    assert(speed(downloaded, millis) == s);
    let head = "download ["@ + bar(downloaded, Some(total)) + "] "@;
    let known = decimal(downloaded) + " B / "@ + (decimal(total as nat) + " B"@);
    let share = decimal(part_of(downloaded, total as nat, 100)) + "%"@;
    let fast = decimal(s) + " B/s"@;
    assert(progress_line(downloaded, Some(total), millis) =~= head + known + " ("@ + share + ") "@
        + fast);
    let open = "download ["@ + bar(downloaded, None) + "] "@;
    let there = decimal(downloaded) + " B / "@ + "unknown"@;
    assert(progress_line(downloaded, None, millis) =~= open + there + " ("@ + "--%"@ + ") "@ + fast);
}

/// A setting that is changed is written with the others, and said with its new value.
pub proof fn law_changed_setting_is_written(
    agira_root: Seq<char>,
    program: Seq<char>,
    before: GlobalConfigView,
    text: TextReadView,
    key: ConfigKey,
    value: Seq<char>,
    unknown: Seq<char>,
)
    requires
        loaded_global(agira_root, program, GlobalReadView::Parsed { config: before }) is Ok,
        key_named(canonical(unknown)) is None,
    ensures
        ({
            let read = GlobalReadView::Parsed { config: before };
            let r = setting_changed(agira_root, program, read, text, key.name(), value);
            let after = with_setting(before, key, value);
            &&& after is Err ==> r is Err
            &&& r is Ok ==> after is Ok && saved_global(agira_root, program, text, after->Ok_0)
                == Ok::<Seq<char>, SaveGlobalConfigErrorView>(r->Ok_0.text) && r->Ok_0.output
                == key.name() + " = "@ + crate::commands::config::setting(after->Ok_0, key) + "\n"@
            &&& setting_changed(agira_root, program, read, text, unknown, value) is Err
            &&& settings_shown(agira_root, program, read) == Ok::<
                Seq<char>,
                ConfigCommandErrorView,
            >(settings_text(before))
        }),
{
    law_settings_are_found(key);
}

/// Settings are written into the document that is there, or into an empty one where none is.
pub proof fn law_settings_are_written(
    agira_root: Seq<char>,
    program: Seq<char>,
    text: Seq<char>,
    message: Seq<char>,
    c: GlobalConfigView,
)
    ensures
        toml_parsed(text) is Ok && toml_rendered(
            merged_global(toml_parsed(text)->Ok_0, program, c),
        ) is Ok ==> saved_global(agira_root, program, TextReadView::Contents { text }, c) == Ok::<
            Seq<char>,
            SaveGlobalConfigErrorView,
        >(toml_rendered(merged_global(toml_parsed(text)->Ok_0, program, c))->Ok_0),
        toml_rendered(merged_global(Map::empty(), program, c)) is Ok ==> saved_global(
            agira_root,
            program,
            TextReadView::Missing,
            c,
        ) == Ok::<Seq<char>, SaveGlobalConfigErrorView>(
            toml_rendered(merged_global(Map::empty(), program, c))->Ok_0,
        ),
        toml_parsed(text) is Err ==> saved_global(
            agira_root,
            program,
            TextReadView::Contents { text },
            c,
        ) is Err,
        saved_global(agira_root, program, TextReadView::Unreadable { message }, c) is Err,
{
}

/// A runner is at hand where it is live or idle.
pub proof fn law_runner_is_at_hand(status: RunnerStatusOutputView)
    ensures
        status.liveness == "live"@ || status.liveness == "idle"@ ==> at_hand(status),
        status.liveness == "stale"@ || status.liveness == "zombie"@ || status.liveness
            == "no runner registered"@ ==> !at_hand(status),
{
    reveal_strlit("live");
    reveal_strlit("idle");
    reveal_strlit("stale");
    reveal_strlit("zombie");
    reveal_strlit("no runner registered");
    assert("live"@.len() == 4 && "idle"@.len() == 4 && "stale"@.len() == 5 && "zombie"@.len() == 6
        && "no runner registered"@.len() == 20);
}

/// The blocked tasks are shown as a document or as a text; where there are none that is said.
pub proof fn law_blocked_command(
    project: ProjectView,
    files: ProjectFilesView,
    config: ConfigView,
    s: TaskStoreView,
)
    requires
        finds(project, files, config, s),
    ensures
        ({
            let found = by_id(s.tasks).filter(|t: TaskView| t.state == "blocked"@);
            let text = blocked_shown(project, files, false);
            let document = blocked_shown(project, files, true);
            &&& text.1 is Ok
            &&& document.1 is Ok
            &&& document.0.tasks == Some(found)
            &&& text.0.tasks is None
            &&& found.len() == 0 ==> text.0.report.output == seq!["No blocked tasks."@]
            &&& found.len() > 0 ==> text.0.report.output == seq![
                crate::commands::blocked::blocked_text(found),
            ]
        }),
{
    law_blocked_tasks_in_order(s.tasks, -1);
}

/// The repository of a directory is the nearest one above it, or the directory itself.
pub proof fn law_nearest_repository(ancestors: Seq<AncestorView>, i: int)
    ensures
        0 <= i < ancestors.len() && ancestors[i].has_git && (forall|j: int|
            0 <= j < i ==> !(#[trigger] ancestors[j]).has_git) ==> first_where(
            ancestors,
            holds_git(),
        ) == Some(i),
        (forall|j: int| 0 <= j < ancestors.len() ==> !(#[trigger] ancestors[j]).has_git)
            ==> first_where(ancestors, holds_git()) is None,
{
    let p = holds_git();
    lemma_first_where(ancestors, p);
    if first_where(ancestors, p) is Some {
        let f = first_where(ancestors, p)->0;
        assert(p(ancestors[f]));
        assert(ancestors[f].has_git);
        if 0 <= i < f && ancestors[i].has_git {
            assert(p(ancestors[i]));
        }
    } else if 0 <= i < ancestors.len() {
        assert(!p(ancestors[i]));
    }
}

/// Commands are those that are read; without a file there are none.
pub proof fn law_commands_are_as_read(path: Seq<char>, config: HookConfigView, message: Seq<char>)
    ensures
        loaded_hooks(path, HooksReadView::Missing) matches Ok(c) && c.hooks.len() == 0,
        loaded_hooks(path, HooksReadView::Parsed { config }) == Ok::<
            HookConfigView,
            HookConfigErrorView,
        >(config),
        loaded_hooks(path, HooksReadView::Unreadable { message }) is Err,
        loaded_hooks(path, HooksReadView::Malformed { message }) is Err,
{
}

/// What a package says is known where its file is there and can be read.
pub proof fn law_package_file(text: Seq<char>)
    ensures
        facts_in(None) is None,
        json_parsed(text) is Err ==> facts_in(Some(text)) is None,
        json_parsed(text) is Ok ==> facts_in(Some(text)) == Some(facts_of(json_parsed(text)->Ok_0)),
{
}

/// A change of the tasks that succeeds leaves them as the change says, and one that is refused leaves
/// them as they were; what is returned is what the change gives. So do changes of the runners.
pub proof fn law_steps_are_taken<T>(
    before: TaskStoreView,
    after: TaskStoreView,
    next: TaskStoreView,
    returned: Result<T, StoreErrorView>,
    given: T,
    error: StoreErrorView,
    runners: RunnerStoreView,
    runners_after: RunnerStoreView,
    runners_next: RunnerStoreView,
    runner_returned: Result<RunnerView, RunnerStoreErrorView>,
    runner: RunnerView,
    runner_error: RunnerStoreErrorView,
)
    ensures
        stepped(before, after, returned, Ok((next, given))) <==> after == next && returned == Ok::<
            T,
            StoreErrorView,
        >(given),
        stepped(before, after, returned, Err(error)) <==> after == before && returned == Err::<
            T,
            StoreErrorView,
        >(error),
        runner_stepped(runners, runners_after, runner_returned, Ok((runners_next, runner)))
            <==> runners_after == runners_next && runner_returned == Ok::<
            RunnerView,
            RunnerStoreErrorView,
        >(runner),
        runner_stepped(runners, runners_after, runner_returned, Err(runner_error)) <==> runners_after
            == runners && runner_returned == Err::<RunnerView, RunnerStoreErrorView>(runner_error),
{
}

} // verus!
