use vstd::prelude::*;

use crate::text::opt_view;

verus! {

/// The characters of each string in `v`, in order.
pub open spec fn views(v: Seq<String>) -> Seq<Seq<char>> {
    v.map_values(|s: String| s@)
}

/// An external tool to run: the program, its arguments, and what to write to
/// its standard input, if anything. A non-zero exit is a tool failure.
#[derive(Debug, Clone, PartialEq, Eq)]
pub struct ToolCommand {
    pub program: String,
    pub args: Vec<String>,
    pub input: Option<String>,
}

/// A tool invocation as plain character sequences.
pub struct CommandView {
    pub program: Seq<char>,
    pub args: Seq<Seq<char>>,
    pub input: Option<Seq<char>>,
}

impl View for ToolCommand {
    type V = CommandView;

    open spec fn view(&self) -> CommandView {
        CommandView { program: self.program@, args: views(self.args@), input: opt_view(self.input) }
    }
}

/// The call of `program` with `args` and nothing on standard input.
pub open spec fn call(program: Seq<char>, args: Seq<Seq<char>>) -> CommandView {
    CommandView { program, args, input: None }
}

/// One operation on the machine, in the order a plan lists them.
#[derive(Debug, Clone, PartialEq, Eq)]
pub enum SystemOp {
    /// Create a directory and its missing parents.
    MakeDir { path: String },
    /// Mount the device `source` at `target` as `fs_type`, default flags.
    Mount { source: String, target: String, fs_type: String },
    /// Bind-mount the host path `source` at `target`.
    Bind { source: String, target: String },
    /// Detach the mount at `target` lazily.
    Unmount { target: String },
    /// Flush filesystem buffers to disk.
    Sync,
    /// Make the escape anchor, a handle to the host root, the working
    /// directory.
    EnterAnchor { fd: i32 },
    /// Change the process root to `path`.
    ChangeRoot { path: String },
    /// Change the working directory to `path`.
    ChangeDir { path: String },
    /// Run a tool; its failure fails the plan.
    Run { command: ToolCommand },
    /// Run a tool; its failure is ignored.
    TryRun { command: ToolCommand },
    /// Create the file `path` with `size` bytes allocated, readable and
    /// writable by its owner only.
    Allocate { path: String, size: u64 },
    /// Replace the contents of the file `path` with `content`.
    WriteFile { path: String, content: String },
    /// Append `content` to the existing file `path`.
    AppendFile { path: String, content: String },
    /// Replace `link` with a symbolic link to `target`.
    Symlink { target: String, link: String },
}

/// A plan operation as plain values.
pub enum OpView {
    MakeDir(Seq<char>),
    Mount(Seq<char>, Seq<char>, Seq<char>),
    Bind(Seq<char>, Seq<char>),
    Unmount(Seq<char>),
    Sync,
    EnterAnchor(i32),
    ChangeRoot(Seq<char>),
    ChangeDir(Seq<char>),
    Run(CommandView),
    TryRun(CommandView),
    Allocate(Seq<char>, u64),
    WriteFile(Seq<char>, Seq<char>),
    AppendFile(Seq<char>, Seq<char>),
    Symlink(Seq<char>, Seq<char>),
}

impl View for SystemOp {
    type V = OpView;

    open spec fn view(&self) -> OpView {
        match self {
            SystemOp::MakeDir { path } => OpView::MakeDir(path@),
            SystemOp::Mount { source, target, fs_type } => OpView::Mount(
                source@,
                target@,
                fs_type@,
            ),
            SystemOp::Bind { source, target } => OpView::Bind(source@, target@),
            SystemOp::Unmount { target } => OpView::Unmount(target@),
            SystemOp::Sync => OpView::Sync,
            SystemOp::EnterAnchor { fd } => OpView::EnterAnchor(*fd),
            SystemOp::ChangeRoot { path } => OpView::ChangeRoot(path@),
            SystemOp::ChangeDir { path } => OpView::ChangeDir(path@),
            SystemOp::Run { command } => OpView::Run(command@),
            SystemOp::TryRun { command } => OpView::TryRun(command@),
            SystemOp::Allocate { path, size } => OpView::Allocate(path@, *size),
            SystemOp::WriteFile { path, content } => OpView::WriteFile(path@, content@),
            SystemOp::AppendFile { path, content } => OpView::AppendFile(path@, content@),
            SystemOp::Symlink { target, link } => OpView::Symlink(target@, link@),
        }
    }
}

/// The operations of a plan as plain values.
pub open spec fn plan_view(v: Seq<SystemOp>) -> Seq<OpView> {
    v.map_values(|o: SystemOp| o@)
}

/// Builds a vector holding the characters of `a` and then of `b`.
pub fn two_args(a: &str, b: &str) -> (r: Vec<String>)
    ensures
        views(r@) == seq![a@, b@],
{
    let mut v: Vec<String> = Vec::new();
    v.push(a.to_owned());
    v.push(b.to_owned());
    assert(views(v@) =~= seq![a@, b@]);
    v
}

/// Builds a vector holding the characters of `a`.
pub fn one_arg(a: &str) -> (r: Vec<String>)
    ensures
        views(r@) == seq![a@],
{
    let mut v: Vec<String> = Vec::new();
    v.push(a.to_owned());
    assert(views(v@) =~= seq![a@]);
    v
}

/// The call of `program` with `args` and nothing on standard input.
pub fn tool(program: &str, args: Vec<String>) -> (r: ToolCommand)
    ensures
        r@ == call(program@, views(args@)),
{
    ToolCommand { program: program.to_owned(), args, input: None }
}

/// Appends the operations of `more` to `plan`.
pub fn extend_plan(plan: &mut Vec<SystemOp>, more: Vec<SystemOp>)
    ensures
        plan_view(final(plan)@) == plan_view(old(plan)@) + plan_view(more@),
{
    let mut more = more;
    let ghost m = more@;
    plan.append(&mut more);
    assert(plan_view(plan@) =~= plan_view(old(plan)@) + plan_view(m));
}

/// Appends `op` to `plan`.
pub fn push_op(plan: &mut Vec<SystemOp>, op: SystemOp)
    ensures
        plan_view(final(plan)@) == plan_view(old(plan)@).push(op@),
{
    plan.push(op);
    assert(plan_view(plan@) =~= plan_view(old(plan)@).push(op@));
}

} // verus!
