use vstd::prelude::*;
use vstd::std_specs::cmp::PartialEqSpecImpl;
use vstd::string::StringExecFns;

verus! {

/// The view of an optional string.
pub open spec fn text_of(text: Option<String>) -> Option<Seq<char>> {
    match text {
        Some(text) => Some(text@),
        None => None,
    }
}

/// The view of an optional description.
pub open spec fn description_of(description: Option<JobDescription>) -> Option<Seq<char>> {
    match description {
        Some(description) => Some(description@),
        None => None,
    }
}

/// The view of an optional section.
pub open spec fn section_of(section: Option<JobSection>) -> Option<JobSectionView> {
    match section {
        Some(section) => Some(section@),
        None => None,
    }
}

fn same_text(left: &Option<String>, right: &Option<String>) -> (same: bool)
    ensures
        same == (text_of(*left) == text_of(*right)),
{
    match (left, right) {
        (Some(left), Some(right)) => *left == *right,
        (None, None) => true,
        _ => false,
    }
}

fn same_description(left: &Option<JobDescription>, right: &Option<JobDescription>) -> (same: bool)
    ensures
        same == (description_of(*left) == description_of(*right)),
{
    match (left, right) {
        (Some(left), Some(right)) => *left == *right,
        (None, None) => true,
        _ => false,
    }
}

/// Whether two optional sections are the same, field by field.
pub fn same_section(left: &Option<JobSection>, right: &Option<JobSection>) -> (same: bool)
    ensures
        same == (section_of(*left) == section_of(*right)),
{
    match (left, right) {
        (Some(left), Some(right)) => *left == *right,
        (None, None) => true,
        _ => false,
    }
}

fn clone_text(text: &Option<String>) -> (copy: Option<String>)
    ensures
        text_of(copy) == text_of(*text),
{
    match text {
        Some(text) => Some(text.clone()),
        None => None,
    }
}

fn clone_description(description: &Option<JobDescription>) -> (copy: Option<JobDescription>)
    ensures
        description_of(copy) == description_of(*description),
{
    match description {
        Some(description) => Some(description.clone()),
        None => None,
    }
}

/// A copy of an optional section, with the same view.
pub fn clone_section(section: &Option<JobSection>) -> (copy: Option<JobSection>)
    ensures
        section_of(copy) == section_of(*section),
{
    match section {
        Some(section) => Some(section.clone()),
        None => None,
    }
}

/// The text of a double-hash comment that describes the job right below it.
#[derive(Debug)]
pub struct JobDescription(pub String);

impl View for JobDescription {
    type V = Seq<char>;

    open spec fn view(&self) -> Seq<char> {
        self.0@
    }
}

impl Clone for JobDescription {
    fn clone(&self) -> (copy: Self)
        ensures
            copy@ == self@,
    {
        JobDescription(self.0.clone())
    }
}

impl PartialEq for JobDescription {
    fn eq(&self, other: &Self) -> (same: bool) {
        self.0 == other.0
    }
}

impl PartialEqSpecImpl for JobDescription {
    open spec fn obeys_eq_spec() -> bool {
        true
    }

    open spec fn eq_spec(&self, other: &Self) -> bool {
        self@ == other@
    }
}

impl Eq for JobDescription {

}

impl JobDescription {
    /// The description's text.
    pub fn to_string(&self) -> (text: String)
        ensures
            text@ == self@,
    {
        self.0.clone()
    }
}

/// A section of the crontab, opened by a triple-hash comment. Two sections
/// with the same title are told apart by their `uid`.
#[derive(Debug)]
pub struct JobSection {
    pub uid: usize,
    pub title: String,
}

/// What a [`JobSection`] holds, its title as a sequence of characters.
pub struct JobSectionView {
    pub uid: nat,
    pub title: Seq<char>,
}

impl View for JobSection {
    type V = JobSectionView;

    open spec fn view(&self) -> JobSectionView {
        JobSectionView { uid: self.uid as nat, title: self.title@ }
    }
}

impl Clone for JobSection {
    fn clone(&self) -> (copy: Self)
        ensures
            copy@ == self@,
    {
        JobSection { uid: self.uid, title: self.title.clone() }
    }
}

impl PartialEq for JobSection {
    fn eq(&self, other: &Self) -> (same: bool) {
        self.uid == other.uid && self.title == other.title
    }
}

impl PartialEqSpecImpl for JobSection {
    open spec fn obeys_eq_spec() -> bool {
        true
    }

    open spec fn eq_spec(&self, other: &Self) -> bool {
        self@ == other@
    }
}

impl Eq for JobSection {

}

impl JobSection {
    /// The section's title.
    pub fn to_string(&self) -> (text: String)
        ensures
            text@ == self.title@,
    {
        self.title.clone()
    }
}


/// A job that can be listed and run.
#[derive(Debug)]
pub struct CronJob {
    /// The job's position among the jobs of the crontab, from 1. It changes
    /// when jobs are added, removed or ignored above this one.
    pub uid: usize,
    /// A hash of the job's `uid` and `command`.
    pub fingerprint: u64,
    /// The name that the job's description gives it between `%{` and `}`.
    pub tag: Option<String>,
    /// The schedule, its fields separated by single spaces.
    pub schedule: String,
    /// The command, as the shell gets it.
    pub command: String,
    /// The description, without the tag.
    pub description: Option<JobDescription>,
    /// The section that was open where the job stands.
    pub section: Option<JobSection>,
}

/// What a [`CronJob`] holds, its texts as sequences of characters.
pub struct CronJobView {
    pub uid: nat,
    pub fingerprint: u64,
    pub tag: Option<Seq<char>>,
    pub schedule: Seq<char>,
    pub command: Seq<char>,
    pub description: Option<Seq<char>>,
    pub section: Option<JobSectionView>,
}

impl View for CronJob {
    type V = CronJobView;

    open spec fn view(&self) -> CronJobView {
        CronJobView {
            uid: self.uid as nat,
            fingerprint: self.fingerprint,
            tag: text_of(self.tag),
            schedule: self.schedule@,
            command: self.command@,
            description: description_of(self.description),
            section: section_of(self.section),
        }
    }
}

impl Clone for CronJob {
    fn clone(&self) -> (copy: Self)
        ensures
            copy@ == self@,
    {
        CronJob {
            uid: self.uid,
            fingerprint: self.fingerprint,
            tag: clone_text(&self.tag),
            schedule: self.schedule.clone(),
            command: self.command.clone(),
            description: clone_description(&self.description),
            section: clone_section(&self.section),
        }
    }
}

impl PartialEq for CronJob {
    fn eq(&self, other: &Self) -> (same: bool) {
        self.uid == other.uid && self.fingerprint == other.fingerprint && same_text(
            &self.tag,
            &other.tag,
        ) && self.schedule == other.schedule && self.command == other.command && same_description(
            &self.description,
            &other.description,
        ) && same_section(&self.section, &other.section)
    }
}

impl PartialEqSpecImpl for CronJob {
    open spec fn obeys_eq_spec() -> bool {
        true
    }

    open spec fn eq_spec(&self, other: &Self) -> bool {
        self@ == other@
    }
}

impl Eq for CronJob {

}

impl CronJob {
    /// What a menu shows for the job.
    pub open spec fn label(job: CronJobView) -> Seq<char> {
        match job.description {
            Some(description) => description,
            None => job.schedule + seq![' '] + job.command,
        }
    }

    /// The job's description, or else its schedule, a space and its command.
    pub fn to_string(&self) -> (text: String)
        ensures
            text@ == Self::label(self@),
    {
        match &self.description {
            Some(description) => description.to_string(),
            None => {
                let mut text = self.schedule.clone();
                proof {
                    reveal_strlit(" ");
                    assert(" "@ =~= seq![' ']);
                }
                text.append(" ");
                text.append(self.command.as_str());
                text
            },
        }
    }
}

/// A job whose tag is `ignore`: it keeps its place among the tokens, but it
/// has no `uid` and no fingerprint, and it is neither listed nor run.
#[derive(Debug)]
pub struct IgnoredJob {
    pub tag: Option<String>,
    pub schedule: String,
    pub command: String,
    pub description: Option<JobDescription>,
    pub section: Option<JobSection>,
}

/// What an [`IgnoredJob`] holds, its texts as sequences of characters.
pub struct IgnoredJobView {
    pub tag: Option<Seq<char>>,
    pub schedule: Seq<char>,
    pub command: Seq<char>,
    pub description: Option<Seq<char>>,
    pub section: Option<JobSectionView>,
}

impl View for IgnoredJob {
    type V = IgnoredJobView;

    open spec fn view(&self) -> IgnoredJobView {
        IgnoredJobView {
            tag: text_of(self.tag),
            schedule: self.schedule@,
            command: self.command@,
            description: description_of(self.description),
            section: section_of(self.section),
        }
    }
}

impl Clone for IgnoredJob {
    fn clone(&self) -> (copy: Self)
        ensures
            copy@ == self@,
    {
        IgnoredJob {
            tag: clone_text(&self.tag),
            schedule: self.schedule.clone(),
            command: self.command.clone(),
            description: clone_description(&self.description),
            section: clone_section(&self.section),
        }
    }
}

impl PartialEq for IgnoredJob {
    fn eq(&self, other: &Self) -> (same: bool) {
        same_text(&self.tag, &other.tag) && self.schedule == other.schedule && self.command
            == other.command && same_description(&self.description, &other.description)
            && same_section(&self.section, &other.section)
    }
}

impl PartialEqSpecImpl for IgnoredJob {
    open spec fn obeys_eq_spec() -> bool {
        true
    }

    open spec fn eq_spec(&self, other: &Self) -> bool {
        self@ == other@
    }
}

impl Eq for IgnoredJob {

}

/// A variable of the crontab, quotes around name and value taken off.
#[derive(Debug)]
pub struct Variable {
    pub identifier: String,
    pub value: String,
}

/// What a [`Variable`] holds, its texts as sequences of characters.
pub struct VariableView {
    pub identifier: Seq<char>,
    pub value: Seq<char>,
}

impl View for Variable {
    type V = VariableView;

    open spec fn view(&self) -> VariableView {
        VariableView { identifier: self.identifier@, value: self.value@ }
    }
}

impl Clone for Variable {
    fn clone(&self) -> (copy: Self)
        ensures
            copy@ == self@,
    {
        Variable { identifier: self.identifier.clone(), value: self.value.clone() }
    }
}

impl PartialEq for Variable {
    fn eq(&self, other: &Self) -> (same: bool) {
        self.identifier == other.identifier && self.value == other.value
    }
}

impl PartialEqSpecImpl for Variable {
    open spec fn obeys_eq_spec() -> bool {
        true
    }

    open spec fn eq_spec(&self, other: &Self) -> bool {
        self@ == other@
    }
}

impl Eq for Variable {

}

/// What a comment is, by the number of hashes that open it: one, two, or
/// three and more.
#[derive(Clone, Copy, Debug, PartialEq, Eq, Structural)]
pub enum CommentKind {
    Regular,
    Description,
    Section,
}

/// A comment, without its hashes and the whitespace behind them.
#[derive(Debug)]
pub struct Comment {
    pub value: String,
    pub kind: CommentKind,
}

/// What a [`Comment`] holds, its text as a sequence of characters.
pub struct CommentView {
    pub value: Seq<char>,
    pub kind: CommentKind,
}

impl View for Comment {
    type V = CommentView;

    open spec fn view(&self) -> CommentView {
        CommentView { value: self.value@, kind: self.kind }
    }
}

impl Clone for Comment {
    fn clone(&self) -> (copy: Self)
        ensures
            copy@ == self@,
    {
        Comment { value: self.value.clone(), kind: self.kind }
    }
}

impl PartialEq for Comment {
    fn eq(&self, other: &Self) -> (same: bool) {
        self.value == other.value && self.kind == other.kind
    }
}

impl PartialEqSpecImpl for Comment {
    open spec fn obeys_eq_spec() -> bool {
        true
    }

    open spec fn eq_spec(&self, other: &Self) -> bool {
        self@ == other@
    }
}

impl Eq for Comment {

}

/// A line that is neither a job, a variable nor a comment, kept as it is.
#[derive(Debug)]
pub struct Unknown {
    pub value: String,
}

/// What an [`Unknown`] holds, its text as a sequence of characters.
pub struct UnknownView {
    pub value: Seq<char>,
}

impl View for Unknown {
    type V = UnknownView;

    open spec fn view(&self) -> UnknownView {
        UnknownView { value: self.value@ }
    }
}

impl Clone for Unknown {
    fn clone(&self) -> (copy: Self)
        ensures
            copy@ == self@,
    {
        Unknown { value: self.value.clone() }
    }
}

impl PartialEq for Unknown {
    fn eq(&self, other: &Self) -> (same: bool) {
        self.value == other.value
    }
}

impl PartialEqSpecImpl for Unknown {
    open spec fn obeys_eq_spec() -> bool {
        true
    }

    open spec fn eq_spec(&self, other: &Self) -> bool {
        self@ == other@
    }
}

impl Eq for Unknown {

}

/// One non-blank line of a crontab.
#[derive(Debug)]
pub enum Token {
    CronJob(CronJob),
    IgnoredJob(IgnoredJob),
    Variable(Variable),
    Comment(Comment),
    Unknown(Unknown),
}

/// What a [`Token`] holds.
pub enum TokenView {
    CronJob(CronJobView),
    IgnoredJob(IgnoredJobView),
    Variable(VariableView),
    Comment(CommentView),
    Unknown(UnknownView),
}

impl View for Token {
    type V = TokenView;

    open spec fn view(&self) -> TokenView {
        match self {
            Token::CronJob(job) => TokenView::CronJob(job@),
            Token::IgnoredJob(job) => TokenView::IgnoredJob(job@),
            Token::Variable(variable) => TokenView::Variable(variable@),
            Token::Comment(comment) => TokenView::Comment(comment@),
            Token::Unknown(unknown) => TokenView::Unknown(unknown@),
        }
    }
}

impl Clone for Token {
    fn clone(&self) -> (copy: Self)
        ensures
            copy@ == self@,
    {
        match self {
            Token::CronJob(job) => Token::CronJob(job.clone()),
            Token::IgnoredJob(job) => Token::IgnoredJob(job.clone()),
            Token::Variable(variable) => Token::Variable(variable.clone()),
            Token::Comment(comment) => Token::Comment(comment.clone()),
            Token::Unknown(unknown) => Token::Unknown(unknown.clone()),
        }
    }
}

impl PartialEq for Token {
    fn eq(&self, other: &Self) -> (same: bool) {
        match (self, other) {
            (Token::CronJob(left), Token::CronJob(right)) => *left == *right,
            (Token::IgnoredJob(left), Token::IgnoredJob(right)) => *left == *right,
            (Token::Variable(left), Token::Variable(right)) => *left == *right,
            (Token::Comment(left), Token::Comment(right)) => *left == *right,
            (Token::Unknown(left), Token::Unknown(right)) => *left == *right,
            _ => false,
        }
    }
}

impl PartialEqSpecImpl for Token {
    open spec fn obeys_eq_spec() -> bool {
        true
    }

    open spec fn eq_spec(&self, other: &Self) -> bool {
        self@ == other@
    }
}

impl Eq for Token {

}

/// The views of a sequence of tokens, in the same order.
pub open spec fn views_of(tokens: Seq<Token>) -> Seq<TokenView> {
    tokens.map_values(|token: Token| token@)
}

} // verus!
