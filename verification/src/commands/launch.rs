//! Starting the agent process, and reading its screen.

use vstd::prelude::*;

use crate::engine::global_config::{ClaudeRunnerConfig, ClaudeRunnerConfigView};
use crate::json_doc::{
    get_member, json_item, json_line, json_list, json_object, json_parsed, json_pretty, json_single,
    json_singleton, json_text, json_to_line, json_to_pretty, list_of, member_keys, members,
    new_object, no_members, object_of, parse_json, set_member, single_member, JsonItem,
};
use crate::string_map::StringMap;
use crate::text::{
    after_prefix, blank, is_blank, join, join_strs, lines, lines_of, parse_i32, parse_signed,
    replace, replace_char, strip_prefix, to_chars, trim, trim_start, trim_start_str, trim_str,
};

verus! {

// ---------------------------------------------------------------------------------------------
// Shell words
// ---------------------------------------------------------------------------------------------

/// A text as a word of a shell command.
pub open spec fn quoted(s: Seq<char>) -> Seq<char> {
    "'"@ + replace(s, '\'', "'\\''"@) + "'"@
}

/// A text as a word of a shell command.
pub fn shell_quote_string(text: &str) -> (r: String)
    ensures
        r@ == quoted(text@),
{
    let mut out = "'".to_owned();
    out.push_str(replace_char(text, '\'', "'\\''").as_str());
    out.push_str("'");
    out
}

/// A path as a word of a shell command.
pub fn shell_quote_path(path: &str) -> (r: String)
    ensures
        r@ == quoted(path@),
{
    shell_quote_string(path)
}

/// What a shell has read of a word.
#[verifier::ext_equal]
pub struct ShellWord {
    /// Between single quotes.
    pub inside: bool,
    /// After a backslash outside of quotes.
    pub escaped: bool,
    pub text: Seq<char>,
}

/// What a shell has read once it has read one more character.
pub open spec fn shell_step(w: ShellWord, c: char) -> ShellWord {
    if w.inside {
        if c == '\'' {
            ShellWord { inside: false, ..w }
        } else {
            ShellWord { text: w.text.push(c), ..w }
        }
    } else if w.escaped {
        ShellWord { escaped: false, text: w.text.push(c), ..w }
    } else if c == '\'' {
        ShellWord { inside: true, ..w }
    } else if c == '\\' {
        ShellWord { escaped: true, ..w }
    } else {
        ShellWord { text: w.text.push(c), ..w }
    }
}

/// What a shell reads in the characters of a word.
pub open spec fn shell_read(s: Seq<char>) -> ShellWord
    decreases s.len(),
{
    if s.len() == 0 {
        ShellWord { inside: false, escaped: false, text: Seq::empty() }
    } else {
        shell_step(shell_read(s.drop_last()), s.last())
    }
}

proof fn lemma_shell_inside(s: Seq<char>)
    ensures
        shell_read("'"@ + replace(s, '\'', "'\\''"@)) == (ShellWord {
            inside: true,
            escaped: false,
            text: s,
        }),
    decreases s.len(),
{
    reveal_strlit("'");
    reveal_strlit("'\\''");
    let open = "'"@;
    let mark = "'\\''"@;
    if s.len() == 0 {
        assert(open + replace(s, '\'', mark) =~= seq!['\'']);
        assert(seq!['\''].drop_last() =~= Seq::<char>::empty());
        assert(shell_read(seq!['\'']) == shell_step(shell_read(Seq::empty()), '\''));
        assert(s =~= Seq::<char>::empty());
    } else {
        lemma_shell_inside(s.drop_last());
        let before = open + replace(s.drop_last(), '\'', mark);
        let word = open + replace(s, '\'', mark);
        assert(s =~= s.drop_last().push(s.last()));
        if s.last() == '\'' {
            assert(mark =~= seq!['\'', '\\', '\'', '\'']);
            let a = before.push('\'');
            let b = a.push('\\');
            let c = b.push('\'');
            let d = c.push('\'');
            assert(word =~= d);
            assert(a.drop_last() =~= before);
            assert(b.drop_last() =~= a);
            assert(c.drop_last() =~= b);
            assert(d.drop_last() =~= c);
            assert(shell_read(a) == shell_step(shell_read(before), '\''));
            assert(shell_read(b) == shell_step(shell_read(a), '\\'));
            assert(shell_read(c) == shell_step(shell_read(b), '\''));
            assert(shell_read(d) == shell_step(shell_read(c), '\''));
            assert(shell_read(d).text =~= s);
        } else {
            assert(word =~= before.push(s.last()));
            assert(word.drop_last() =~= before);
            assert(shell_read(word) == shell_step(shell_read(before), s.last()));
            assert(shell_read(word).text =~= s);
        }
    }
}

/// A shell reads a quoted text back as it was.
pub proof fn law_shell_reads_quoted_text(s: Seq<char>)
    ensures
        shell_read(quoted(s)) == (ShellWord { inside: false, escaped: false, text: s }),
{
    reveal_strlit("'");
    let before = "'"@ + replace(s, '\'', "'\\''"@);
    lemma_shell_inside(s);
    assert(quoted(s) =~= before.push('\''));
    assert(quoted(s).drop_last() =~= before);
}

// ---------------------------------------------------------------------------------------------
// The command line
// ---------------------------------------------------------------------------------------------

/// The variables that are set for a process.
pub open spec fn env_tokens(env: Seq<(Seq<char>, Seq<char>)>) -> Seq<Seq<char>> {
    env.map_values(|e: (Seq<char>, Seq<char>)| e.0 + "="@ + quoted(e.1))
}

/// Texts as words of a shell command.
pub open spec fn quoted_all(items: Seq<Seq<char>>) -> Seq<Seq<char>> {
    items.map_values(|s: Seq<char>| quoted(s))
}

/// The words about settings in the command that starts the agent process.
pub open spec fn settings_tokens(settings: Option<Seq<char>>) -> Seq<Seq<char>> {
    match settings {
        Some(s) => seq!["--settings"@, quoted(s)],
        None => Seq::empty(),
    }
}

/// The words of the command that starts the agent process.
pub open spec fn launch_tokens(
    config: ClaudeRunnerConfigView,
    runner_id: Seq<char>,
    prompt: Seq<char>,
    settings: Option<Seq<char>>,
    kickoff: Seq<char>,
) -> Seq<Seq<char>> {
    env_tokens(config.env) + seq![
        "AGIRA_RUNNER_ID="@ + quoted(runner_id),
        quoted(config.command),
        "--model"@,
        quoted(config.model),
        "--permission-mode"@,
        quoted(config.permission_mode),
    ] + settings_tokens(settings) + quoted_all(config.extra_args) + seq![
        "--append-system-prompt"@,
        quoted(prompt),
        quoted(kickoff),
    ]
}

/// The command that starts the agent process.
pub open spec fn launch_line(
    config: ClaudeRunnerConfigView,
    runner_id: Seq<char>,
    prompt: Seq<char>,
    settings: Option<Seq<char>>,
    kickoff: Seq<char>,
) -> Seq<char> {
    join(launch_tokens(config, runner_id, prompt, settings, kickoff), " "@)
}

fn make_env_tokens(env: &StringMap<String>) -> (r: Vec<String>)
    ensures
        r.deep_view() == env_tokens(env@),
{
    let ghost all = env_tokens(env@);
    let mut out: Vec<String> = Vec::new();
    let mut i: usize = 0;
    assert(out.deep_view() =~= all.take(0));
    while i < env.len()
        invariant
            i <= env@.len(),
            all == env_tokens(env@),
            out.deep_view() == all.take(i as int),
        decreases env@.len() - i,
    {
        let ghost before = out.deep_view();
        let mut token = env.key_at(i).clone();
        token.push_str("=");
        token.push_str(shell_quote_string(env.value_at(i).as_str()).as_str());
        out.push(token);
        assert(out.deep_view() =~= before.push(all[i as int]));
        assert(all.take(i + 1) =~= all.take(i as int).push(all[i as int]));
        i = i + 1;
    }
    assert(all.take(i as int) =~= all);
    out
}

fn push_token(tokens: &mut Vec<String>, token: String)
    ensures
        final(tokens).deep_view() == old(tokens).deep_view().push(token@),
{
    let ghost before = tokens.deep_view();
    tokens.push(token);
    assert(tokens.deep_view() =~= before.push(token@));
}

/// The command that starts the agent process.
pub fn claude_launch_command(
    config: &ClaudeRunnerConfig,
    runner_id: &str,
    prompt: &str,
    settings_arg: Option<&str>,
    kickoff: &str,
) -> (r: String)
    ensures
        r@ == launch_line(config@, runner_id@, prompt@, settings_arg.deep_view(), kickoff@),
{
    let mut tokens = make_env_tokens(&config.env);
    let ghost first = tokens.deep_view();
    let mut own = "AGIRA_RUNNER_ID=".to_owned();
    own.push_str(shell_quote_string(runner_id).as_str());
    push_token(&mut tokens, own);
    push_token(&mut tokens, shell_quote_string(config.command.as_str()));
    push_token(&mut tokens, "--model".to_owned());
    push_token(&mut tokens, shell_quote_string(config.model.as_str()));
    push_token(&mut tokens, "--permission-mode".to_owned());
    push_token(&mut tokens, shell_quote_string(config.permission_mode.as_str()));
    let ghost head = first + seq![
        "AGIRA_RUNNER_ID="@ + quoted(runner_id@),
        quoted(config@.command),
        "--model"@,
        quoted(config@.model),
        "--permission-mode"@,
        quoted(config@.permission_mode),
    ];
    assert(tokens.deep_view() =~= head);
    match settings_arg {
        Some(s) => {
            push_token(&mut tokens, "--settings".to_owned());
            push_token(&mut tokens, shell_quote_string(s));
        },
        None => {},
    }
    let ghost with_settings = head + settings_tokens(settings_arg.deep_view());
    assert(tokens.deep_view() =~= with_settings);
    let ghost args = quoted_all(config@.extra_args);
    let mut i: usize = 0;
    assert(with_settings =~= with_settings + args.take(0));
    while i < config.extra_args.len()
        invariant
            i <= config.extra_args.len(),
            args == quoted_all(config@.extra_args),
            tokens.deep_view() == with_settings + args.take(i as int),
        decreases config.extra_args.len() - i,
    {
        assert(config@.extra_args[i as int] == config.extra_args@[i as int]@);
        push_token(&mut tokens, shell_quote_string(config.extra_args[i].as_str()));
        assert(with_settings + args.take(i + 1) =~= (with_settings + args.take(i as int)).push(
            args[i as int],
        ));
        i = i + 1;
    }
    assert(args.take(i as int) =~= args);
    push_token(&mut tokens, "--append-system-prompt".to_owned());
    push_token(&mut tokens, shell_quote_string(prompt));
    push_token(&mut tokens, shell_quote_string(kickoff));
    assert(tokens.deep_view() =~= launch_tokens(
        config@,
        runner_id@,
        prompt@,
        settings_arg.deep_view(),
        kickoff@,
    ));
    join_strs(&tokens, " ")
}

// ---------------------------------------------------------------------------------------------
// Settings of the agent process
// ---------------------------------------------------------------------------------------------

/// A command that the agent process runs on its own.
pub open spec fn event_command(event: Seq<char>) -> JsonItem {
    JsonItem::List(
        seq![
            JsonItem::Object(
                no_members().insert("type"@, JsonItem::Text("command"@)).insert(
                    "command"@,
                    JsonItem::Text(
                        "agira runner event "@ + event + " --runner \"$AGIRA_RUNNER_ID\""@,
                    ),
                ),
            ),
        ],
    )
}

/// The settings that let the agent process tell what it does.
pub open spec fn lifecycle_item() -> JsonItem {
    single_member(
        "hooks"@,
        JsonItem::Object(
            no_members().insert(
                "SessionStart"@,
                JsonItem::List(seq![single_member("hooks"@, event_command("ready"@))]),
            ).insert(
                "Stop"@,
                JsonItem::List(seq![single_member("hooks"@, event_command("idle"@))]),
            ).insert(
                "PostToolUse"@,
                JsonItem::List(
                    seq![
                        JsonItem::Object(
                            no_members().insert("matcher"@, JsonItem::Text("*"@)).insert(
                                "hooks"@,
                                event_command("heartbeat"@),
                            ),
                        ),
                    ],
                ),
            ),
        ),
    )
}

fn make_event_command(event: &str) -> (r: serde_json::Value)
    ensures
        json_item(r) == event_command(event@),
{
    let mut m = new_object();
    set_member(&mut m, "type".to_owned(), json_text("command".to_owned()));
    let mut command = "agira runner event ".to_owned();
    command.push_str(event);
    command.push_str(" --runner \"$AGIRA_RUNNER_ID\"");
    set_member(&mut m, "command".to_owned(), json_text(command));
    json_singleton(json_object(m))
}

/// The settings that let the agent process tell what it does.
pub fn runner_hooks_settings() -> (r: String)
    ensures
        r@ == json_line(lifecycle_item()),
{
    let mut events = new_object();
    set_member(
        &mut events,
        "SessionStart".to_owned(),
        json_singleton(json_single("hooks", make_event_command("ready"))),
    );
    set_member(
        &mut events,
        "Stop".to_owned(),
        json_singleton(json_single("hooks", make_event_command("idle"))),
    );
    let mut tool = new_object();
    set_member(&mut tool, "matcher".to_owned(), json_text("*".to_owned()));
    set_member(&mut tool, "hooks".to_owned(), make_event_command("heartbeat"));
    set_member(&mut events, "PostToolUse".to_owned(), json_singleton(json_object(tool)));
    json_to_line(&json_single("hooks", json_object(events)))
}

/// What stands under an event once two sets of commands are merged: both lists, one after the
/// other, or else what the second set says.
pub open spec fn merged_event(
    own: Map<Seq<char>, JsonItem>,
    added: Map<Seq<char>, JsonItem>,
    event: Seq<char>,
) -> JsonItem {
    if !added.contains_key(event) {
        own[event]
    } else if own.contains_key(event) && own[event] is List && added[event] is List {
        JsonItem::List(own[event]->List_0 + added[event]->List_0)
    } else {
        added[event]
    }
}

/// Two sets of commands, merged event by event.
pub open spec fn merged_events(
    own: Map<Seq<char>, JsonItem>,
    added: Map<Seq<char>, JsonItem>,
) -> Map<Seq<char>, JsonItem> {
    Map::new(
        |k: Seq<char>| own.contains_key(k) || added.contains_key(k),
        |k: Seq<char>| merged_event(own, added, k),
    )
}

/// The object under a key; none of its members where there is no such object.
pub open spec fn sub_object(m: Map<Seq<char>, JsonItem>, key: Seq<char>) -> Map<Seq<char>, JsonItem> {
    if m.contains_key(key) && m[key] is Object {
        m[key]->Object_0
    } else {
        no_members()
    }
}

/// The settings of a user with the commands of other settings added.
pub open spec fn merged_settings(user: JsonItem, hooks: JsonItem) -> JsonItem {
    match user {
        JsonItem::Object(own) => match hooks {
            JsonItem::Object(h) => if h.contains_key("hooks"@) && h["hooks"@] is Object {
                JsonItem::Object(
                    own.insert(
                        "hooks"@,
                        JsonItem::Object(
                            merged_events(sub_object(own, "hooks"@), h["hooks"@]->Object_0),
                        ),
                    ),
                )
            } else {
                user
            },
            _ => user,
        },
        _ => hooks,
    }
}

/// Adding commands to the settings of a user keeps every other setting.
pub proof fn law_merging_keeps_settings(user: JsonItem, hooks: JsonItem, key: Seq<char>)
    requires
        user is Object,
        key != "hooks"@,
    ensures
        merged_settings(user, hooks) is Object,
        merged_settings(user, hooks)->Object_0.contains_key(key) == user->Object_0.contains_key(
            key,
        ),
        user->Object_0.contains_key(key) ==> merged_settings(user, hooks)->Object_0[key]
            == user->Object_0[key],
{
}

/// Adding commands to those of a user keeps the commands of the user in front, and leaves the
/// events for which none are added as they were.
pub proof fn law_merging_keeps_commands(
    own: Map<Seq<char>, JsonItem>,
    added: Map<Seq<char>, JsonItem>,
    event: Seq<char>,
)
    requires
        own.contains_key(event),
    ensures
        merged_events(own, added).contains_key(event),
        !added.contains_key(event) ==> merged_events(own, added)[event] == own[event],
        added.contains_key(event) && own[event] is List && added[event] is List
            ==> merged_events(own, added)[event] is List && own[event]->List_0.is_prefix_of(
            merged_events(own, added)[event]->List_0,
        ),
{
}

/// Every command that is added stands in the merged settings.
pub proof fn law_merging_adds_commands(
    own: Map<Seq<char>, JsonItem>,
    added: Map<Seq<char>, JsonItem>,
    event: Seq<char>,
)
    requires
        added.contains_key(event),
        added[event] is List,
    ensures
        merged_events(own, added).contains_key(event),
        merged_events(own, added)[event] is List,
        added[event]->List_0.is_suffix_of(merged_events(own, added)[event]->List_0),
{
}

/// The parts of a list, one after the other.
fn append_values(first: Vec<serde_json::Value>, second: Vec<serde_json::Value>) -> (r: Vec<
    serde_json::Value,
>)
    ensures
        r@ == first@ + second@,
{
    let mut out = first;
    let mut rest = second;
    out.append(&mut rest);
    out
}

fn merge_event(
    own: &serde_json::Map<String, serde_json::Value>,
    event: &str,
    added: serde_json::Value,
) -> (r: serde_json::Value)
    ensures
        json_item(r) == if members(*own).contains_key(event@) && members(*own)[event@] is List
            && json_item(added) is List {
            JsonItem::List(members(*own)[event@]->List_0 + json_item(added)->List_0)
        } else {
            json_item(added)
        },
{
    match get_member(own, event) {
        Some(existing) => match (list_of(&existing), list_of(&added)) {
            (Some(a), Some(b)) => {
                let ghost x = a@;
                let ghost y = b@;
                let ghost f = |v: serde_json::Value| json_item(v);
                assert((x + y).map_values(f) =~= x.map_values(f) + y.map_values(f));
                json_list(append_values(a, b))
            },
            _ => added,
        },
        None => added,
    }
}

fn merge_events(
    own: serde_json::Map<String, serde_json::Value>,
    added: &serde_json::Map<String, serde_json::Value>,
) -> (r: serde_json::Map<String, serde_json::Value>)
    ensures
        members(r) == merged_events(members(own), members(*added)),
{
    let ghost a = members(own);
    let ghost b = members(*added);
    let mut out = own;
    let events = member_keys(added);
    let ghost names = events.deep_view();
    let mut i: usize = 0;
    while i < events.len()
        invariant
            i <= events.len(),
            names == events.deep_view(),
            names.no_duplicates(),
            b == members(*added),
            forall|k: Seq<char>| #[trigger] names.contains(k) == b.contains_key(k),
            forall|k: Seq<char>|
                #[trigger] members(out).contains_key(k) == (a.contains_key(k) || names.take(
                    i as int,
                ).contains(k)),
            forall|k: Seq<char>| #[trigger]
                members(out).contains_key(k) ==> members(out)[k] == if names.take(
                    i as int,
                ).contains(k) {
                    merged_event(a, b, k)
                } else {
                    a[k]
                },
        decreases events.len() - i,
    {
        let event = events[i].as_str();
        assert(names[i as int] == event@);
        assert(names.contains(event@));
        assert(!names.take(i as int).contains(event@)) by {
            if names.take(i as int).contains(event@) {
                let j = names.take(i as int).index_of(event@);
                assert(names[j] == names[i as int]);
            }
        }
        let ghost before = members(out);
        match get_member(added, event) {
            Some(value) => {
                let merged = merge_event(&out, event, value);
                set_member(&mut out, event.to_owned(), merged);
            },
            None => {},
        }
        assert(members(out) == before.insert(event@, merged_event(a, b, event@)));
        assert forall|k: Seq<char>|
            #[trigger] names.take(i + 1).contains(k) == (names.take(i as int).contains(k) || k
                == event@) by {
            let longer = names.take(i + 1);
            let shorter = names.take(i as int);
            assert(longer =~= shorter.push(event@));
            if shorter.contains(k) {
                let j = shorter.index_of(k);
                assert(longer[j] == k);
            }
            if k == event@ {
                assert(longer[i as int] == k);
            }
            if longer.contains(k) {
                let j = longer.index_of(k);
                if j < i {
                    assert(shorter[j] == k);
                }
            }
        }
        i = i + 1;
    }
    assert(names.take(i as int) =~= names);
    assert(members(out) =~= merged_events(a, b));
    out
}

/// The settings of a user with the commands of other settings added.
pub(crate) fn merge_runner_hooks_settings(
    user_settings: serde_json::Value,
    hooks_settings: serde_json::Value,
) -> (r: serde_json::Value)
    ensures
        json_item(r) == merged_settings(json_item(user_settings), json_item(hooks_settings)),
{
    let mut user = match object_of(&user_settings) {
        Some(m) => m,
        None => {
            return hooks_settings;
        },
    };
    let hooks = match object_of(&hooks_settings) {
        Some(m) => m,
        None => {
            return user_settings;
        },
    };
    let added = match get_member(&hooks, "hooks") {
        Some(v) => match object_of(&v) {
            Some(m) => m,
            None => {
                return user_settings;
            },
        },
        None => {
            return user_settings;
        },
    };
    let own = match get_member(&user, "hooks") {
        Some(v) => match object_of(&v) {
            Some(m) => m,
            None => new_object(),
        },
        None => new_object(),
    };
    let merged = merge_events(own, &added);
    set_member(&mut user, "hooks".to_owned(), json_object(merged));
    json_object(user)
}

/// The text of the settings of a user with the commands of other settings added, or the complaint
/// about the first of the two texts that is no JSON document.
pub open spec fn merged_settings_text(user: Seq<char>, hooks: Seq<char>) -> Result<
    Seq<char>,
    (bool, Seq<char>),
> {
    match json_parsed(user) {
        Err(e) => Err((true, e)),
        Ok(u) => match json_parsed(hooks) {
            Err(e) => Err((false, e)),
            Ok(h) => Ok(json_pretty(merged_settings(u, h))),
        },
    }
}

/// The text of the settings of a user with the commands of other settings added, or the complaint
/// about the first of the two texts that is no JSON document; the complaint comes with whether it
/// is about the settings of the user.
pub fn merge_settings_text(user: &str, hooks: &str) -> (r: Result<String, (bool, String)>)
    ensures
        match r {
            Ok(s) => merged_settings_text(user@, hooks@) == Ok::<Seq<char>, (bool, Seq<char>)>(s@),
            Err((own, e)) => merged_settings_text(user@, hooks@) == Err::<
                Seq<char>,
                (bool, Seq<char>),
            >((own, e@)),
        },
{
    let u = match parse_json(user) {
        Ok(v) => v,
        Err(e) => {
            return Err((true, e));
        },
    };
    let h = match parse_json(hooks) {
        Ok(v) => v,
        Err(e) => {
            return Err((false, e));
        },
    };
    Ok(json_to_pretty(&merge_runner_hooks_settings(u, h)))
}

// ---------------------------------------------------------------------------------------------
// The screen of the agent process
// ---------------------------------------------------------------------------------------------

/// A character of a frame: neither ASCII nor the sign of a prompt.
pub open spec fn is_frame(c: char) -> bool {
    c as u32 > 127 && c != '❯'
}

/// A text without the frame in front.
pub open spec fn unframed(s: Seq<char>) -> Seq<char>
    decreases s.len(),
{
    if s.len() > 0 && is_frame(s[0]) {
        unframed(s.skip(1))
    } else {
        s
    }
}

fn char_is_frame(c: char) -> (r: bool)
    ensures
        r == is_frame(c),
{
    (c as u32) > 127 && c != '❯'
}

fn unframed_str<'a>(s: &'a str) -> (r: &'a str)
    ensures
        r@ == unframed(s@),
{
    let x: Vec<char> = to_chars(s);
    let mut i: usize = 0;
    assert(s@.skip(0) =~= s@);
    while i < x.len() && char_is_frame(x[i])
        invariant
            i <= x.len(),
            x@ == s@,
            unframed(s@) == unframed(s@.skip(i as int)),
        decreases x.len() - i,
    {
        assert(s@.skip(i as int)[0] == x@[i as int]);
        assert(s@.skip(i as int).skip(1) =~= s@.skip(i + 1));
        i = i + 1;
    }
    proof {
        if i < x.len() {
            assert(s@.skip(i as int)[0] == x@[i as int]);
        }
    }
    let r = s.substring_char(i, x.len());
    assert(r@ =~= s@.skip(i as int));
    r
}

/// What stands after the sign of a prompt in a line that has one.
pub open spec fn after_prompt(line: Seq<char>) -> Option<Seq<char>> {
    let bare = trim_start(unframed(trim_start(line)));
    match after_prefix(bare, ">"@) {
        Some(input) => Some(input),
        None => after_prefix(bare, "❯"@),
    }
}

/// What stands after the sign of a prompt in a line that has one.
pub fn prompt_line_after_glyph<'a>(line: &'a str) -> (r: Option<&'a str>)
    ensures
        r.deep_view() == after_prompt(line@),
{
    let bare = trim_start_str(unframed_str(trim_start_str(line)));
    match strip_prefix(bare, ">") {
        Some(input) => Some(input),
        None => strip_prefix(bare, "❯"),
    }
}

/// The screen shows a prompt.
pub open spec fn shows_prompt(pane: Seq<char>) -> bool {
    exists|i: int| 0 <= i < lines(pane).len() && after_prompt(#[trigger] lines(pane)[i]) is Some
}

/// The screen shows a prompt after which nothing is typed.
pub open spec fn shows_empty_prompt(pane: Seq<char>) -> bool {
    exists|i: int|
        0 <= i < lines(pane).len() && after_prompt(#[trigger] lines(pane)[i]) is Some && blank(
            after_prompt(lines(pane)[i])->0,
        )
}

/// Whether the screen shows a prompt.
pub fn claude_tui_input_ready(pane: &str) -> (r: bool)
    ensures
        r == shows_prompt(pane@),
{
    let all: Vec<String> = lines_of(pane);
    let mut i: usize = 0;
    while i < all.len()
        invariant
            i <= all.len(),
            all.deep_view() == lines(pane@),
            forall|j: int| 0 <= j < i ==> after_prompt(#[trigger] lines(pane@)[j]) is None,
        decreases all.len() - i,
    {
        assert(lines(pane@)[i as int] == all@[i as int]@);
        if prompt_line_after_glyph(all[i].as_str()).is_some() {
            return true;
        }
        i = i + 1;
    }
    false
}

/// Whether the screen shows a prompt after which nothing is typed.
pub fn claude_tui_input_cleared(pane: &str) -> (r: bool)
    ensures
        r == shows_empty_prompt(pane@),
{
    let all: Vec<String> = lines_of(pane);
    let mut i: usize = 0;
    while i < all.len()
        invariant
            i <= all.len(),
            all.deep_view() == lines(pane@),
            forall|j: int|
                0 <= j < i ==> !(after_prompt(#[trigger] lines(pane@)[j]) is Some && blank(
                    after_prompt(lines(pane@)[j])->0,
                )),
        decreases all.len() - i,
    {
        assert(lines(pane@)[i as int] == all@[i as int]@);
        match prompt_line_after_glyph(all[i].as_str()) {
            Some(input) => {
                if is_blank(input) {
                    return true;
                }
            },
            None => {},
        }
        i = i + 1;
    }
    false
}

/// A screen on which nothing is typed after a prompt shows a prompt.
pub proof fn law_cleared_prompt_is_ready(pane: Seq<char>)
    requires
        shows_empty_prompt(pane),
    ensures
        shows_prompt(pane),
{
}

/// The first number in the lines that `tmux` lists.
pub open spec fn first_pid(items: Seq<Seq<char>>) -> Option<int>
    decreases items.len(),
{
    if items.len() == 0 {
        None
    } else {
        match parse_signed(trim(items[0]), i32::MIN as int, i32::MAX as int) {
            Some(n) => Some(n),
            None => first_pid(items.skip(1)),
        }
    }
}

/// The process of a pane: the first number in what `tmux` lists.
pub fn pane_pid(listing: &str) -> (r: Option<i32>)
    ensures
        match r {
            Some(n) => first_pid(lines(listing@)) == Some(n as int),
            None => first_pid(lines(listing@)) is None,
        },
{
    let all: Vec<String> = lines_of(listing);
    let ghost items = lines(listing@);
    let mut i: usize = 0;
    assert(items.skip(0) =~= items);
    while i < all.len()
        invariant
            i <= all.len(),
            all.deep_view() == items,
            items == lines(listing@),
            first_pid(items) == first_pid(items.skip(i as int)),
        decreases all.len() - i,
    {
        assert(items.skip(i as int)[0] == all@[i as int]@);
        assert(items.skip(i as int).skip(1) =~= items.skip(i + 1));
        match parse_i32(trim_str(all[i].as_str())) {
            Some(n) => {
                return Some(n);
            },
            None => {},
        }
        i = i + 1;
    }
    None
}

/// What is said about a `tmux` command that failed.
pub fn stderr_message(stderr: &str) -> (r: String)
    ensures
        r@ == if blank(stderr@) {
            "tmux command exited non-zero"@
        } else {
            trim(stderr@)
        },
{
    proof {
        crate::text::lemma_trim_blank(stderr@);
    }
    if is_blank(stderr) {
        "tmux command exited non-zero".to_owned()
    } else {
        trim_str(stderr).to_owned()
    }
}

} // verus!
