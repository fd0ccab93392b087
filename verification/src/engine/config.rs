//! The configuration of a project: its phases and the workflows made of them.

use vstd::prelude::*;

use crate::duplicate::{outcome, Duplicate};
use crate::engine::global_config::GlobalConfig;
use crate::string_map::{has_key, keys, lemma_lookup_at, lemma_put, lookup, put, sorted, StringMap};
use crate::text::{
    contains, keep, lemma_keep, lemma_keep_add, lemma_keep_distinct, lemma_keep_from,
    lemma_keep_none, occurs, str_eq,
};

verus! {

/// The phase in which a task starts.
pub const INITIAL_PHASE_NAME: &'static str = "pending";

/// The phase in which a task ends.
pub const TERMINAL_PHASE_NAME: &'static str = "done";

/// The workflow of a new project.
pub const DEFAULT_WORKFLOW_NAME: &'static str = "default";

/// What is done in a phase, and by which model.
#[derive(Debug, PartialEq, Eq)]
pub struct PhaseDef {
    pub model: Option<String>,
    pub duty: Option<String>,
    /// A command that must succeed before the phase is left.
    pub gate: Option<String>,
}

/// The contents of a `PhaseDef`.
#[verifier::ext_equal]
pub struct PhaseDefView {
    pub model: Option<Seq<char>>,
    pub duty: Option<Seq<char>>,
    pub gate: Option<Seq<char>>,
}

impl View for PhaseDef {
    type V = PhaseDefView;

    open spec fn view(&self) -> PhaseDefView {
        PhaseDefView {
            model: self.model.deep_view(),
            duty: self.duty.deep_view(),
            gate: self.gate.deep_view(),
        }
    }
}

impl DeepView for PhaseDef {
    type V = PhaseDefView;

    open spec fn deep_view(&self) -> PhaseDefView {
        self@
    }
}

impl Duplicate for PhaseDef {
    fn duplicate(&self) -> (r: Self) {
        PhaseDef {
            model: self.model.duplicate(),
            duty: self.duty.duplicate(),
            gate: self.gate.duplicate(),
        }
    }
}

impl Clone for PhaseDef {
    fn clone(&self) -> (r: Self)
        ensures
            r@ == self@,
    {
        self.duplicate()
    }
}


/// The phases of a project and the workflows made of them.
#[derive(Debug, PartialEq, Eq)]
pub struct Config {
    pub stack: String,
    pub phases: StringMap<PhaseDef>,
    pub workflows: StringMap<Vec<String>>,
    pub default_workflow: String,
    pub max_retries: u32,
}

/// The contents of a `Config`.
#[verifier::ext_equal]
pub struct ConfigView {
    pub stack: Seq<char>,
    pub phases: Seq<(Seq<char>, PhaseDefView)>,
    pub workflows: Seq<(Seq<char>, Seq<Seq<char>>)>,
    pub default_workflow: Seq<char>,
    pub max_retries: u32,
}

impl View for Config {
    type V = ConfigView;

    open spec fn view(&self) -> ConfigView {
        ConfigView {
            stack: self.stack@,
            phases: self.phases@,
            workflows: self.workflows@,
            default_workflow: self.default_workflow@,
            max_retries: self.max_retries,
        }
    }
}

impl DeepView for Config {
    type V = ConfigView;

    open spec fn deep_view(&self) -> ConfigView {
        self@
    }
}

impl Duplicate for Config {
    fn duplicate(&self) -> (r: Self) {
        Config {
            stack: self.stack.duplicate(),
            phases: self.phases.duplicate(),
            workflows: self.workflows.duplicate(),
            default_workflow: self.default_workflow.duplicate(),
            max_retries: self.max_retries,
        }
    }
}

impl Clone for Config {
    fn clone(&self) -> (r: Self)
        ensures
            r@ == self@,
    {
        self.duplicate()
    }
}


/// Why the configuration of a project could not be used.
#[derive(Debug, PartialEq, Eq)]
pub enum ConfigError {
    NotFound { path: String },
    Read { path: String, message: String },
    Parse { path: String, message: String },
    Invalid { path: String, reason: String },
}

/// The contents of a `ConfigError`.
#[verifier::ext_equal]
pub enum ConfigErrorView {
    NotFound { path: Seq<char> },
    Read { path: Seq<char>, message: Seq<char> },
    Parse { path: Seq<char>, message: Seq<char> },
    Invalid { path: Seq<char>, reason: Seq<char> },
}

impl View for ConfigError {
    type V = ConfigErrorView;

    open spec fn view(&self) -> ConfigErrorView {
        match self {
            ConfigError::NotFound { path } => ConfigErrorView::NotFound { path: path@ },
            ConfigError::Read { path, message } => ConfigErrorView::Read { path: path@, message: message@ },
            ConfigError::Parse { path, message } => ConfigErrorView::Parse { path: path@, message: message@ },
            ConfigError::Invalid { path, reason } => ConfigErrorView::Invalid { path: path@, reason: reason@ },
        }
    }
}

impl DeepView for ConfigError {
    type V = ConfigErrorView;

    open spec fn deep_view(&self) -> ConfigErrorView {
        self@
    }
}

impl Duplicate for ConfigError {
    fn duplicate(&self) -> (r: Self) {
        match self {
            ConfigError::NotFound { path } => ConfigError::NotFound { path: path.duplicate() },
            ConfigError::Read { path, message } => ConfigError::Read { path: path.duplicate(), message: message.duplicate() },
            ConfigError::Parse { path, message } => ConfigError::Parse { path: path.duplicate(), message: message.duplicate() },
            ConfigError::Invalid { path, reason } => ConfigError::Invalid { path: path.duplicate(), reason: reason.duplicate() },
        }
    }
}

impl Clone for ConfigError {
    fn clone(&self) -> (r: Self)
        ensures
            r@ == self@,
    {
        self.duplicate()
    }
}

impl ConfigErrorView {
    /// The text shown for the error.
    pub open spec fn message(self) -> Seq<char> {
        match self {
            ConfigErrorView::NotFound { path } => "config file not found: "@ + path,
            ConfigErrorView::Read { path, .. } => "failed to read "@ + path,
            ConfigErrorView::Parse { path, message } => "failed to load config "@ + path + ": "@ + message,
            ConfigErrorView::Invalid { path, reason } => "invalid config "@ + path + ": "@ + reason,
        }
    }
}

impl ConfigError {
    /// The text shown for the error.
    pub fn message(&self) -> (r: String)
        ensures
            r@ == self@.message(),
    {
        match self {
            ConfigError::NotFound { path } => {
                let mut out = "config file not found: ".to_owned();
                out.push_str(path.as_str());
                out
            },
            ConfigError::Read { path, .. } => {
                let mut out = "failed to read ".to_owned();
                out.push_str(path.as_str());
                out
            },
            ConfigError::Parse { path, message } => {
                let mut out = "failed to load config ".to_owned();
                out.push_str(path.as_str());
                out.push_str(": ");
                out.push_str(message.as_str());
                out
            },
            ConfigError::Invalid { path, reason } => {
                let mut out = "invalid config ".to_owned();
                out.push_str(path.as_str());
                out.push_str(": ");
                out.push_str(reason.as_str());
                out
            },
        }
    }
}


/// What reading a configuration file gave.
#[derive(Debug, PartialEq, Eq)]
pub enum ConfigRead {
    /// There is no such file.
    Missing,
    /// The file could not be read.
    Unreadable { message: String },
    /// The file holds no configuration.
    Malformed { message: String },
    /// The text of the file and the configuration it holds.
    Parsed { contents: String, config: Config },
}

/// The contents of a `ConfigRead`.
#[verifier::ext_equal]
pub enum ConfigReadView {
    Missing,
    Unreadable { message: Seq<char> },
    Malformed { message: Seq<char> },
    Parsed { contents: Seq<char>, config: ConfigView },
}

impl View for ConfigRead {
    type V = ConfigReadView;

    open spec fn view(&self) -> ConfigReadView {
        match self {
            ConfigRead::Missing => ConfigReadView::Missing,
            ConfigRead::Unreadable { message } => ConfigReadView::Unreadable { message: message@ },
            ConfigRead::Malformed { message } => ConfigReadView::Malformed { message: message@ },
            ConfigRead::Parsed { contents, config } => ConfigReadView::Parsed { contents: contents@, config: config@ },
        }
    }
}

impl DeepView for ConfigRead {
    type V = ConfigReadView;

    open spec fn deep_view(&self) -> ConfigReadView {
        self@
    }
}

impl Duplicate for ConfigRead {
    fn duplicate(&self) -> (r: Self) {
        match self {
            ConfigRead::Missing => ConfigRead::Missing,
            ConfigRead::Unreadable { message } => ConfigRead::Unreadable { message: message.duplicate() },
            ConfigRead::Malformed { message } => ConfigRead::Malformed { message: message.duplicate() },
            ConfigRead::Parsed { contents, config } => ConfigRead::Parsed { contents: contents.duplicate(), config: config.duplicate() },
        }
    }
}

impl Clone for ConfigRead {
    fn clone(&self) -> (r: Self)
        ensures
            r@ == self@,
    {
        self.duplicate()
    }
}


/// A phase with nothing configured.
pub open spec fn plain_phase() -> PhaseDefView {
    PhaseDefView { model: None, duty: None, gate: None }
}

impl Default for PhaseDef {
    fn default() -> (r: Self)
        ensures
            r@ == plain_phase(),
    {
        PhaseDef { model: None, duty: None, gate: None }
    }
}

/// The phases other than the first and the last one of every workflow.
pub open spec fn is_middle() -> spec_fn(Seq<char>) -> bool {
    |p: Seq<char>| p != INITIAL_PHASE_NAME@ && p != TERMINAL_PHASE_NAME@
}

/// A sequence of phases that starts in the initial and ends in the terminal phase, with the others
/// in between as they stand.
pub open spec fn normalized(s: Seq<Seq<char>>) -> Seq<Seq<char>> {
    seq![INITIAL_PHASE_NAME@] + keep(s, is_middle()) + seq![TERMINAL_PHASE_NAME@]
}

/// The phases with the initial and the terminal one as they must be.
pub open spec fn with_mandatory(phases: Seq<(Seq<char>, PhaseDefView)>) -> Seq<
    (Seq<char>, PhaseDefView),
> {
    put(put(phases, INITIAL_PHASE_NAME@, plain_phase()), TERMINAL_PHASE_NAME@, plain_phase())
}

/// The entries as a map, a later one in place of an earlier one with its name.
pub open spec fn palette(entries: Seq<(Seq<char>, PhaseDefView)>) -> Seq<(Seq<char>, PhaseDefView)>
    decreases entries.len(),
{
    if entries.len() == 0 {
        Seq::empty()
    } else {
        put(palette(entries.drop_last()), entries.last().0, entries.last().1)
    }
}

/// Each workflow in its normalized form.
pub open spec fn normalized_workflows(ws: Seq<(Seq<char>, Seq<Seq<char>>)>) -> Seq<
    (Seq<char>, Seq<Seq<char>>),
> {
    ws.map_values(|e: (Seq<char>, Seq<Seq<char>>)| (e.0, normalized(e.1)))
}

/// The first problem of a sequence of phases from position `j` on.
pub open spec fn steps_problem(
    phases: Seq<(Seq<char>, PhaseDefView)>,
    name: Seq<char>,
    steps: Seq<Seq<char>>,
    j: int,
) -> Option<Seq<char>>
    decreases steps.len() - j,
{
    if j < 0 || j >= steps.len() {
        None
    } else if !has_key(phases, steps[j]) {
        Some("workflow '"@ + name + "' references unknown phase '"@ + steps[j] + "'"@)
    } else if steps.take(j).contains(steps[j]) {
        Some("workflow '"@ + name + "' references duplicate phase '"@ + steps[j] + "'"@)
    } else {
        steps_problem(phases, name, steps, j + 1)
    }
}

/// The first problem of a workflow.
pub open spec fn workflow_problem(
    phases: Seq<(Seq<char>, PhaseDefView)>,
    name: Seq<char>,
    steps: Seq<Seq<char>>,
) -> Option<Seq<char>> {
    match steps_problem(phases, name, steps, 0) {
        Some(p) => Some(p),
        None => if steps.len() == 0 {
            Some("workflow '"@ + name + "' must not be empty"@)
        } else if steps.last() != TERMINAL_PHASE_NAME@ {
            Some(
                "workflow '"@ + name + "' terminal phase must be '"@ + TERMINAL_PHASE_NAME@
                    + "' (found '"@ + steps.last() + "')"@,
            )
        } else {
            None
        },
    }
}

/// The first problem of the workflows from position `i` on.
pub open spec fn workflows_problem(
    phases: Seq<(Seq<char>, PhaseDefView)>,
    ws: Seq<(Seq<char>, Seq<Seq<char>>)>,
    i: int,
) -> Option<Seq<char>>
    decreases ws.len() - i,
{
    if i < 0 || i >= ws.len() {
        None
    } else {
        match workflow_problem(phases, ws[i].0, ws[i].1) {
            Some(p) => Some(p),
            None => workflows_problem(phases, ws, i + 1),
        }
    }
}

/// A sequence of known phases, none twice, that ends in the terminal one.
pub open spec fn valid_steps(
    phases: Seq<(Seq<char>, PhaseDefView)>,
    steps: Seq<Seq<char>>,
) -> bool {
    &&& steps.len() > 0
    &&& steps.last() == TERMINAL_PHASE_NAME@
    &&& forall|j: int| 0 <= j < steps.len() ==> has_key(phases, #[trigger] steps[j])
    &&& steps.no_duplicates()
}

impl ConfigView {
    /// The phases of a workflow, in order; none for a workflow that is not there.
    pub open spec fn sequence(self, workflow: Seq<char>) -> Seq<Seq<char>> {
        match lookup(self.workflows, workflow) {
            Some(s) => s,
            None => Seq::empty(),
        }
    }

    /// The first phase of the default workflow.
    pub open spec fn initial(self) -> Option<Seq<char>> {
        let s = self.sequence(self.default_workflow);
        if s.len() == 0 {
            None
        } else {
            Some(s[0])
        }
    }

    /// The last phase of the default workflow.
    pub open spec fn terminal(self) -> Option<Seq<char>> {
        let s = self.sequence(self.default_workflow);
        if s.len() == 0 {
            None
        } else {
            Some(s.last())
        }
    }

    /// The first reason why the configuration cannot be used.
    pub open spec fn problem(self) -> Option<Seq<char>> {
        if !has_key(self.workflows, self.default_workflow) {
            Some("default_workflow '"@ + self.default_workflow + "' not found in workflows"@)
        } else {
            workflows_problem(self.phases, self.workflows, 0)
        }
    }

    /// The default workflow is there, and each workflow is a sequence of known phases, none twice,
    /// that ends in the terminal one.
    pub open spec fn valid(self) -> bool {
        &&& has_key(self.workflows, self.default_workflow)
        &&& forall|i: int|
            0 <= i < self.workflows.len() ==> valid_steps(
                self.phases,
                (#[trigger] self.workflows[i]).1,
            )
    }

    /// The configuration with its mandatory phases as they must be and its workflows normalized.
    pub open spec fn normalized(self) -> ConfigView {
        ConfigView {
            phases: with_mandatory(self.phases),
            workflows: normalized_workflows(self.workflows),
            ..self
        }
    }

    /// The configuration in use, given the text of its file and the retries that hold where the
    /// file sets none.
    pub open spec fn in_use(self, contents: Seq<char>, default_max_retries: u32) -> ConfigView {
        let at_least_one = if self.max_retries == 0 {
            1u32
        } else {
            self.max_retries
        };
        let n = ConfigView { max_retries: at_least_one, ..self }.normalized();
        if at_least_one == 1 && !occurs(contents, "\"max_retries\""@) {
            ConfigView { max_retries: default_max_retries, ..n }
        } else {
            n
        }
    }
}

/// What a configuration that was read comes to.
pub open spec fn loaded_config(path: Seq<char>, read: ConfigReadView, default_max_retries: u32) -> Result<
    ConfigView,
    ConfigErrorView,
> {
    match read {
        ConfigReadView::Missing => Err(ConfigErrorView::NotFound { path }),
        ConfigReadView::Unreadable { message } => Err(ConfigErrorView::Read { path, message }),
        ConfigReadView::Malformed { message } => Err(ConfigErrorView::Parse { path, message }),
        ConfigReadView::Parsed { contents, config } => {
            let c = config.in_use(contents, default_max_retries);
            match c.problem() {
                Some(reason) => Err(ConfigErrorView::Invalid { path, reason }),
                None => Ok(c),
            }
        },
    }
}

/// A configuration of one workflow, made of the given phases in their order.
pub open spec fn single_workflow(
    stack: Seq<char>,
    entries: Seq<(Seq<char>, PhaseDefView)>,
    max_retries: u32,
) -> ConfigView {
    ConfigView {
        stack,
        phases: with_mandatory(palette(entries)),
        workflows: seq![(DEFAULT_WORKFLOW_NAME@, normalized(keys(entries)))],
        default_workflow: DEFAULT_WORKFLOW_NAME@,
        max_retries,
    }
}

impl Config {
    /// The phases of a workflow, in order; none for a workflow that is not there.
    pub fn sequence(&self, workflow: &str) -> (r: &[String])
        ensures
            r.deep_view() == self@.sequence(workflow@),
    {
        match self.workflows.get(workflow) {
            Some(s) => {
                let steps = s.as_slice();
                assert(steps.deep_view() =~= s.deep_view());
                steps
            },
            None => {
                let none: &[String] = &[];
                assert(none.deep_view() =~= Seq::empty());
                none
            },
        }
    }

    /// The definition of a phase.
    pub fn phase_def(&self, name: &str) -> (r: Option<&PhaseDef>)
        ensures
            r.deep_view() == lookup(self@.phases, name@),
    {
        self.phases.get(name)
    }

    /// The first phase of the default workflow.
    pub fn initial_phase(&self) -> (r: Option<&str>)
        ensures
            r.deep_view() == self@.initial(),
    {
        let s = self.sequence(self.default_workflow.as_str());
        if s.len() == 0 {
            None
        } else {
            assert(s.deep_view()[0] == s@[0]@);
            Some(s[0].as_str())
        }
    }

    /// The last phase of the default workflow.
    pub fn terminal_phase(&self) -> (r: Option<&str>)
        ensures
            r.deep_view() == self@.terminal(),
    {
        let s = self.sequence(self.default_workflow.as_str());
        if s.len() == 0 {
            None
        } else {
            let n: usize = s.len() - 1;
            assert(s.deep_view()[n as int] == s@[n as int]@);
            Some(s[n].as_str())
        }
    }

    /// A configuration of one workflow, made of the given phases in their order.
    pub fn new_single_workflow(
        stack: &str,
        phase_entries: Vec<(String, PhaseDef)>,
        max_retries: u32,
    ) -> (r: Config)
        ensures
            r@ == single_workflow(stack@, phase_entries.deep_view(), max_retries),
    {
        let ghost entries = phase_entries.deep_view();
        let hint: Vec<String> = Vec::new();
        assert(hint.deep_view() =~= Seq::empty());
        let (phases, sequence) = normalize_palette_and_sequence(phase_entries, hint);
        let mut workflows: StringMap<Vec<String>> = StringMap::new();
        let ghost steps = sequence.deep_view();
        workflows.insert(DEFAULT_WORKFLOW_NAME.to_owned(), sequence);
        assert(workflows@ =~= seq![(DEFAULT_WORKFLOW_NAME@, steps)]);
        Config {
            stack: stack.to_owned(),
            phases,
            workflows,
            default_workflow: DEFAULT_WORKFLOW_NAME.to_owned(),
            max_retries,
        }
    }

    /// Accepts a configuration that can be used, and gives the first reason where it cannot.
    pub fn validate(&self) -> (r: Result<(), String>)
        ensures
            match r {
                Ok(_) => self@.problem() is None,
                Err(e) => self@.problem() == Some(e@),
            },
            r is Ok <==> self@.valid(),
    {
        proof {
            lemma_problem(self@);
        }
        if !self.workflows.contains_key(self.default_workflow.as_str()) {
            let mut out = "default_workflow '".to_owned();
            out.push_str(self.default_workflow.as_str());
            out.push_str("' not found in workflows");
            return Err(out);
        }
        let mut i: usize = 0;
        while i < self.workflows.len()
            invariant
                i <= self@.workflows.len(),
                has_key(self@.workflows, self@.default_workflow),
                self@.problem() == workflows_problem(self@.phases, self@.workflows, i as int),
                self@.problem() is None <==> self@.valid(),
            decreases self@.workflows.len() - i,
        {
            match self.check_workflow(self.workflows.key_at(i).as_str(), self.workflows.value_at(i)) {
                Err(e) => {
                    return Err(e);
                },
                Ok(_) => {},
            }
            i = i + 1;
        }
        Ok(())
    }

    fn check_workflow(&self, name: &str, steps: &Vec<String>) -> (r: Result<(), String>)
        ensures
            match r {
                Ok(_) => workflow_problem(self@.phases, name@, steps.deep_view()) is None,
                Err(e) => workflow_problem(self@.phases, name@, steps.deep_view()) == Some(e@),
            },
    {
        let mut j: usize = 0;
        while j < steps.len()
            invariant
                j <= steps.len(),
                steps_problem(self@.phases, name@, steps.deep_view(), 0) == steps_problem(
                    self@.phases,
                    name@,
                    steps.deep_view(),
                    j as int,
                ),
            decreases steps.len() - j,
        {
            let phase = steps[j].as_str();
            assert(steps.deep_view()[j as int] == phase@);
            if !self.phases.contains_key(phase) {
                let mut out = "workflow '".to_owned();
                out.push_str(name);
                out.push_str("' references unknown phase '");
                out.push_str(phase);
                out.push_str("'");
                return Err(out);
            }
            if seen_before(steps, j) {
                let mut out = "workflow '".to_owned();
                out.push_str(name);
                out.push_str("' references duplicate phase '");
                out.push_str(phase);
                out.push_str("'");
                return Err(out);
            }
            j = j + 1;
        }
        if steps.len() == 0 {
            let mut out = "workflow '".to_owned();
            out.push_str(name);
            out.push_str("' must not be empty");
            return Err(out);
        }
        let last = steps[steps.len() - 1].as_str();
        assert(steps.deep_view().last() == last@);
        if !str_eq(last, TERMINAL_PHASE_NAME) {
            let mut out = "workflow '".to_owned();
            out.push_str(name);
            out.push_str("' terminal phase must be '");
            out.push_str(TERMINAL_PHASE_NAME);
            out.push_str("' (found '");
            out.push_str(last);
            out.push_str("')");
            return Err(out);
        }
        Ok(())
    }
}

fn seen_before(steps: &Vec<String>, j: usize) -> (r: bool)
    requires
        j < steps.len(),
    ensures
        r == steps.deep_view().take(j as int).contains(steps.deep_view()[j as int]),
{
    let ghost front = steps.deep_view().take(j as int);
    let mut k: usize = 0;
    while k < j
        invariant
            k <= j < steps.len(),
            front == steps.deep_view().take(j as int),
            forall|m: int| 0 <= m < k ==> #[trigger] front[m] != steps.deep_view()[j as int],
        decreases j - k,
    {
        if str_eq(steps[k].as_str(), steps[j].as_str()) {
            assert(front[k as int] == steps.deep_view()[j as int]);
            return true;
        }
        assert(front[k as int] != steps.deep_view()[j as int]);
        k = k + 1;
    }
    false
}

proof fn lemma_steps_problem(
    phases: Seq<(Seq<char>, PhaseDefView)>,
    name: Seq<char>,
    steps: Seq<Seq<char>>,
    j: int,
)
    requires
        0 <= j <= steps.len(),
    ensures
        steps_problem(phases, name, steps, j) is None <==> forall|k: int|
            j <= k < steps.len() ==> has_key(phases, #[trigger] steps[k]) && !steps.take(k).contains(
                steps[k],
            ),
    decreases steps.len() - j,
{
    if j < steps.len() {
        lemma_steps_problem(phases, name, steps, j + 1);
        assert(has_key(phases, steps[j]) && !steps.take(j).contains(steps[j]) <==> !(!has_key(
            phases,
            steps[j],
        ) || steps.take(j).contains(steps[j])));
    }
}

proof fn lemma_workflow_problem(
    phases: Seq<(Seq<char>, PhaseDefView)>,
    name: Seq<char>,
    steps: Seq<Seq<char>>,
)
    ensures
        workflow_problem(phases, name, steps) is None <==> valid_steps(phases, steps),
{
    lemma_steps_problem(phases, name, steps, 0);
    if valid_steps(phases, steps) {
        assert forall|k: int| 0 <= k < steps.len() implies has_key(phases, #[trigger] steps[k])
            && !steps.take(k).contains(steps[k]) by {
            if steps.take(k).contains(steps[k]) {
                let m = choose|m: int| 0 <= m < steps.take(k).len() && steps.take(k)[m] == steps[k];
                assert(steps[m] == steps[k]);
            }
        }
    }
    if workflow_problem(phases, name, steps) is None {
        assert forall|a: int, b: int|
            0 <= a < steps.len() && 0 <= b < steps.len() && a != b implies steps[a] != steps[b] by {
            let (lo, hi) = if a < b {
                (a, b)
            } else {
                (b, a)
            };
            assert(steps.take(hi)[lo] == steps[lo]);
            assert(!steps.take(hi).contains(steps[hi]));
        }
    }
}

proof fn lemma_workflows_problem(
    phases: Seq<(Seq<char>, PhaseDefView)>,
    ws: Seq<(Seq<char>, Seq<Seq<char>>)>,
    i: int,
)
    requires
        0 <= i <= ws.len(),
    ensures
        workflows_problem(phases, ws, i) is None <==> forall|k: int|
            i <= k < ws.len() ==> valid_steps(phases, (#[trigger] ws[k]).1),
    decreases ws.len() - i,
{
    if i < ws.len() {
        lemma_workflow_problem(phases, ws[i].0, ws[i].1);
        lemma_workflows_problem(phases, ws, i + 1);
    }
}

/// A configuration has no problem exactly where it is valid.
pub proof fn lemma_problem(c: ConfigView)
    ensures
        c.problem() is None <==> c.valid(),
{
    lemma_workflows_problem(c.phases, c.workflows, 0);
}

/// What a configuration that was read comes to: at least one retry, the mandatory phases as they
/// must be, the workflows normalized, and the retries of the user where the file sets none.
pub fn load_project_config(path: &str, read: ConfigRead, global_config: &GlobalConfig) -> (r: Result<
    Config,
    ConfigError,
>)
    ensures
        outcome(r) == loaded_config(path@, read@, global_config@.default_max_retries),
{
    match read {
        ConfigRead::Missing => Err(ConfigError::NotFound { path: path.to_owned() }),
        ConfigRead::Unreadable { message } => Err(
            ConfigError::Read { path: path.to_owned(), message },
        ),
        ConfigRead::Malformed { message } => Err(
            ConfigError::Parse { path: path.to_owned(), message },
        ),
        ConfigRead::Parsed { contents, config } => {
            let ghost given = config@;
            let mut config = config;
            if config.max_retries == 0 {
                config.max_retries = 1;
            }
            normalize_config(&mut config);
            let ghost n = config@;
            proof {
                lemma_problem_ignores_retries(n, given.in_use(contents@, global_config@.default_max_retries));
            }
            match config.validate() {
                Err(reason) => Err(ConfigError::Invalid { path: path.to_owned(), reason }),
                Ok(_) => {
                    if config.max_retries == 1 && !contains(contents.as_str(), "\"max_retries\"") {
                        config.max_retries = global_config.default_max_retries;
                    }
                    Ok(config)
                },
            }
        },
    }
}

/// A configuration that is loaded can be used.
pub proof fn law_loaded_config_is_valid(path: Seq<char>, read: ConfigReadView, default_max_retries: u32)
    ensures
        loaded_config(path, read, default_max_retries) matches Ok(c) ==> c.valid(),
{
    match loaded_config(path, read, default_max_retries) {
        Ok(c) => {
            lemma_problem(c);
        },
        Err(_) => {},
    }
}

proof fn lemma_problem_ignores_retries(a: ConfigView, b: ConfigView)
    requires
        a.phases == b.phases,
        a.workflows == b.workflows,
        a.default_workflow == b.default_workflow,
    ensures
        a.problem() == b.problem(),
{
}

/// Whether a configuration may be written: only one that can be used.
pub fn write_project_config(path: &str, config: &Config) -> (r: Result<(), ConfigError>)
    ensures
        outcome(r) == writable(path@, config@),
{
    match config.validate() {
        Ok(_) => Ok(()),
        Err(reason) => Err(ConfigError::Invalid { path: path.to_owned(), reason }),
    }
}

/// Whether a configuration may be written, and the reason where it may not.
pub open spec fn writable(path: Seq<char>, config: ConfigView) -> Result<(), ConfigErrorView> {
    match config.problem() {
        Some(reason) => Err(ConfigErrorView::Invalid { path, reason }),
        None => Ok(()),
    }
}

/// Brings a configuration into its normal form.
pub fn normalize_config(config: &mut Config)
    ensures
        final(config)@ == old(config)@.normalized(),
{
    normalize_mandatory_phase_def(INITIAL_PHASE_NAME, &mut config.phases);
    normalize_mandatory_phase_def(TERMINAL_PHASE_NAME, &mut config.phases);
    let ghost ws = config.workflows@;
    let mut i: usize = 0;
    while i < config.workflows.len()
        invariant
            i <= ws.len(),
            config.workflows@.len() == ws.len(),
            config.workflows@ == normalized_workflows(ws).take(i as int) + ws.skip(i as int),
            config.phases@ == with_mandatory(old(config)@.phases),
            config.stack@ == old(config)@.stack,
            config.default_workflow@ == old(config)@.default_workflow,
            config.max_retries == old(config)@.max_retries,
            ws == old(config)@.workflows,
        decreases ws.len() - i,
    {
        assert(config.workflows@[i as int] == ws[i as int]);
        let steps = normalize_sequence(config.workflows.value_at(i).duplicate());
        config.workflows.set_at(i, steps);
        i = i + 1;
        assert(config.workflows@ =~= normalized_workflows(ws).take(i as int) + ws.skip(i as int));
    }
    assert(config.workflows@ =~= normalized_workflows(ws));
}

/// Brings a sequence of phases into its normal form.
pub fn normalize_sequence(sequence: Vec<String>) -> (r: Vec<String>)
    ensures
        r.deep_view() == normalized(sequence.deep_view()),
{
    let ghost s = sequence.deep_view();
    let mut out: Vec<String> = Vec::new();
    out.push(INITIAL_PHASE_NAME.to_owned());
    assert(keep(s.take(0), is_middle()) =~= Seq::<Seq<char>>::empty());
    assert(out.deep_view() =~= seq![INITIAL_PHASE_NAME@] + keep(s.take(0), is_middle()));
    let mut i: usize = 0;
    while i < sequence.len()
        invariant
            i <= sequence.len(),
            s == sequence.deep_view(),
            out.deep_view() == seq![INITIAL_PHASE_NAME@] + keep(s.take(i as int), is_middle()),
        decreases sequence.len() - i,
    {
        let phase = sequence[i].as_str();
        let ghost before = out.deep_view();
        assert(s.take(i + 1).drop_last() =~= s.take(i as int));
        assert(s.take(i + 1).last() == phase@);
        if !str_eq(phase, INITIAL_PHASE_NAME) && !str_eq(phase, TERMINAL_PHASE_NAME) {
            out.push(phase.to_owned());
            assert(out.deep_view() =~= before.push(phase@));
        }
        i = i + 1;
        assert(out.deep_view() =~= seq![INITIAL_PHASE_NAME@] + keep(s.take(i as int), is_middle()));
    }
    assert(s.take(i as int) =~= s);
    let ghost before = out.deep_view();
    out.push(TERMINAL_PHASE_NAME.to_owned());
    assert(out.deep_view() =~= before.push(TERMINAL_PHASE_NAME@));
    out
}

/// The phases and the sequence that a list of phases makes up; the sequence follows the hint where
/// there is one.
pub fn normalize_palette_and_sequence(
    entries: Vec<(String, PhaseDef)>,
    sequence_hint: Vec<String>,
) -> (r: (StringMap<PhaseDef>, Vec<String>))
    ensures
        r.0@ == with_mandatory(palette(entries.deep_view())),
        r.1.deep_view() == normalized(
            if sequence_hint.deep_view().len() > 0 {
                sequence_hint.deep_view()
            } else {
                keys(entries.deep_view())
            },
        ),
{
    let ghost all = entries.deep_view();
    let mut phases: StringMap<PhaseDef> = StringMap::new();
    let mut sequence: Vec<String> = Vec::new();
    let mut i: usize = 0;
    assert(all.take(0) =~= Seq::empty());
    while i < entries.len()
        invariant
            i <= entries.len(),
            all == entries.deep_view(),
            phases@ == palette(all.take(i as int)),
            sequence.deep_view() == keys(all).take(i as int),
        decreases entries.len() - i,
    {
        let ghost before = sequence.deep_view();
        sequence.push(entries[i].0.clone());
        phases.insert(entries[i].0.clone(), entries[i].1.duplicate());
        assert(sequence.deep_view() =~= before.push(all[i as int].0));
        assert(keys(all).take(i + 1) =~= keys(all).take(i as int).push(keys(all)[i as int]));
        assert(all.take(i + 1).drop_last() =~= all.take(i as int));
        assert(all.take(i + 1).last() == all[i as int]);
        i = i + 1;
    }
    assert(all.take(i as int) =~= all);
    assert(keys(all).take(i as int) =~= keys(all));
    if sequence_hint.len() > 0 {
        sequence = sequence_hint;
    }
    normalize_mandatory_phase_def(INITIAL_PHASE_NAME, &mut phases);
    normalize_mandatory_phase_def(TERMINAL_PHASE_NAME, &mut phases);
    (phases, normalize_sequence(sequence))
}

/// Makes a phase one with nothing configured.
pub fn normalize_mandatory_phase_def(name: &str, phases: &mut StringMap<PhaseDef>)
    ensures
        final(phases)@ == put(old(phases)@, name@, plain_phase()),
{
    phases.insert(name.to_owned(), PhaseDef::default());
}

// ---------------------------------------------------------------------------------------------
// Laws
// ---------------------------------------------------------------------------------------------

/// The names of the initial and the terminal phase differ.
pub proof fn lemma_phase_names()
    ensures
        INITIAL_PHASE_NAME@ != TERMINAL_PHASE_NAME@,
{
    reveal_strlit("pending");
    reveal_strlit("done");
    assert("pending"@.len() == 7);
    assert("done"@.len() == 4);
}

/// A normalized sequence starts in the initial phase, ends in the terminal one, and has neither
/// anywhere else.
pub proof fn law_sequence_has_its_ends(s: Seq<Seq<char>>)
    ensures
        normalized(s).len() >= 2,
        normalized(s)[0] == INITIAL_PHASE_NAME@,
        normalized(s).last() == TERMINAL_PHASE_NAME@,
        forall|i: int|
            0 < i < normalized(s).len() - 1 ==> #[trigger] normalized(s)[i] != INITIAL_PHASE_NAME@
                && normalized(s)[i] != TERMINAL_PHASE_NAME@,
{
    lemma_keep(s, is_middle());
    let m = keep(s, is_middle());
    assert forall|i: int| 0 < i < normalized(s).len() - 1 implies #[trigger] normalized(s)[i]
        != INITIAL_PHASE_NAME@ && normalized(s)[i] != TERMINAL_PHASE_NAME@ by {
        assert(normalized(s)[i] == m[i - 1]);
        assert(is_middle()(m[i - 1]));
    }
}

/// Normalizing a sequence twice gives what normalizing it once gives.
pub proof fn lemma_normalized_idempotent(s: Seq<Seq<char>>)
    ensures
        normalized(normalized(s)) == normalized(s),
{
    lemma_keep(s, is_middle());
    let m = keep(s, is_middle());
    lemma_keep(m, is_middle());
    let n = normalized(s);
    let first = seq![INITIAL_PHASE_NAME@];
    let last = seq![TERMINAL_PHASE_NAME@];
    lemma_keep_add(first + m, last, is_middle());
    lemma_keep_add(first, m, is_middle());
    lemma_keep_none(first, is_middle());
    lemma_keep_none(last, is_middle());
    assert(keep(n, is_middle()) =~= m);
}

/// Normalizing a configuration twice gives what normalizing it once gives.
pub proof fn law_normalizing_twice_is_normalizing_once(c: ConfigView)
    requires
        sorted(c.phases),
    ensures
        c.normalized().normalized() == c.normalized(),
{
    let n = c.normalized();
    let nn = n.normalized();
    assert forall|i: int| 0 <= i < n.workflows.len() implies nn.workflows[i] == n.workflows[i] by {
        lemma_normalized_idempotent(c.workflows[i].1);
    }
    assert(nn.workflows =~= n.workflows);
    let once = put(c.phases, INITIAL_PHASE_NAME@, plain_phase());
    lemma_put(c.phases, INITIAL_PHASE_NAME@, plain_phase());
    lemma_put(once, TERMINAL_PHASE_NAME@, plain_phase());
    lemma_put(n.phases, INITIAL_PHASE_NAME@, plain_phase());
    let again = put(n.phases, INITIAL_PHASE_NAME@, plain_phase());
    lemma_put(again, TERMINAL_PHASE_NAME@, plain_phase());
    lemma_phase_names();
    assert forall|key: Seq<char>| #[trigger] lookup(nn.phases, key) == lookup(n.phases, key) by {
        if key != TERMINAL_PHASE_NAME@ {
            assert(lookup(nn.phases, key) == lookup(again, key));
            if key == INITIAL_PHASE_NAME@ {
                assert(lookup(n.phases, key) == lookup(once, key));
            } else {
                assert(lookup(again, key) == lookup(n.phases, key));
            }
        }
    }
    crate::string_map::lemma_extensional(nn.phases, n.phases);
}

/// A palette is a map in which each given phase is found.
pub proof fn lemma_palette(entries: Seq<(Seq<char>, PhaseDefView)>)
    ensures
        sorted(palette(entries)),
        forall|i: int| 0 <= i < entries.len() ==> has_key(palette(entries), (#[trigger] entries[i]).0),
    decreases entries.len(),
{
    if entries.len() > 0 {
        lemma_palette(entries.drop_last());
        lemma_put(palette(entries.drop_last()), entries.last().0, entries.last().1);
        assert forall|i: int| 0 <= i < entries.len() implies has_key(
            palette(entries),
            (#[trigger] entries[i]).0,
        ) by {
            if i < entries.len() - 1 {
                assert(has_key(palette(entries.drop_last()), entries.drop_last()[i].0));
            }
        }
    }
}

/// A configuration made of phases with distinct names is valid.
pub proof fn lemma_single_workflow_valid(
    stack: Seq<char>,
    entries: Seq<(Seq<char>, PhaseDefView)>,
    max_retries: u32,
)
    requires
        keys(entries).no_duplicates(),
    ensures
        single_workflow(stack, entries, max_retries).valid(),
{
    let c = single_workflow(stack, entries, max_retries);
    let names = keys(entries);
    let m = keep(names, is_middle());
    lemma_palette(entries);
    let p = palette(entries);
    let once = put(p, INITIAL_PHASE_NAME@, plain_phase());
    lemma_put(p, INITIAL_PHASE_NAME@, plain_phase());
    lemma_put(once, TERMINAL_PHASE_NAME@, plain_phase());
    lemma_phase_names();
    lemma_keep(names, is_middle());
    lemma_lookup_at(c.workflows, 0);
    let steps = c.workflows[0].1;
    lemma_keep_distinct(names, is_middle());
    assert forall|j: int| 0 <= j < steps.len() implies has_key(c.phases, #[trigger] steps[j]) by {
        if 0 < j < steps.len() - 1 {
            let name = steps[j];
            assert(name == m[j - 1]);
            assert(m.contains(name));
            assert(names.contains(name)) by {
                lemma_keep_from(names, is_middle(), j - 1);
            }
            let k = choose|k: int| 0 <= k < names.len() && names[k] == name;
            assert(has_key(p, entries[k].0));
            assert(is_middle()(m[j - 1]));
            assert(lookup(once, name) == lookup(p, name));
            assert(lookup(c.phases, name) == lookup(once, name));
        } else if j == 0 {
            assert(lookup(c.phases, INITIAL_PHASE_NAME@) == lookup(once, INITIAL_PHASE_NAME@));
        }
    }
    assert forall|a: int, b: int|
        0 <= a < steps.len() && 0 <= b < steps.len() && a != b implies steps[a] != steps[b] by {
        if 0 < a < steps.len() - 1 {
            assert(steps[a] == m[a - 1]);
            assert(is_middle()(m[a - 1]));
        }
        if 0 < b < steps.len() - 1 {
            assert(steps[b] == m[b - 1]);
            assert(is_middle()(m[b - 1]));
        }
    }
}

} // verus!
