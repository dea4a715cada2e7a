//! The module and crate graph walker.
//!
//! The walker reconstructs the logical tree of source files a compiler
//! would see: the entry module of a crate, its file-based submodules at
//! `<dir>/<name>.rs` or `<dir>/<name>/mod.rs`, its inline submodules
//! (flattened one level, not walked further), and every externally
//! referenced crate, found as a sibling directory of the current crate's
//! root. Modules are visited in depth-first pre-order: a module's own
//! body is reported before anything reached through it.
//!
//! The walker itself never touches the file system. It is a state
//! machine: each call to [`Resolver::step`] returns the next thing the
//! driver must do — read and parse a file, test whether a path exists,
//! show a module body to the visitor, or print a warning — and the driver
//! answers with an [`Event`]. Every transition is pinned to the
//! mathematical transition function [`spec_step`], so the order of visits
//! and the paths asked for are fully determined by the events fed in.
//! A reference cycle between crates makes the walk revisit them without
//! end; the machine does not guard against that, it only promises what
//! each single step does.

use vstd::prelude::*;
use vstd::string::StringExecFns;
use crate::ast::Item;
use crate::paths::base_name;
use crate::paths::parent_dir;
use crate::paths::spec_join;
use crate::paths::file_name_of;
use crate::paths::parent_of;
use crate::paths::join_path;

verus! {

/// The abstract value of one stack frame: a module whose body has been
/// visited and whose declarations are being scanned, one by one.
#[verifier::ext_equal]
pub struct FrameV {
    pub crate_dir: Seq<char>,
    pub crate_name: Seq<char>,
    pub mod_dir: Seq<char>,
    pub items: Seq<Item>,
    pub idx: int,
}

/// The abstract value of the machine's mode: what it is waiting for.
#[verifier::ext_equal]
pub enum ModeV {
    Launch { root: Seq<char> },
    Reading { crate_dir: Seq<char>, mod_dir: Seq<char> },
    Visiting,
    Scanning,
    VisitingInline,
    CheckFile { name: Seq<char>, path: Seq<char> },
    CheckDir { name: Seq<char>, path: Seq<char> },
    CheckCrate { name: Seq<char>, path: Seq<char> },
    Finished,
}

/// The abstract state of the whole machine.
#[verifier::ext_equal]
pub struct StateV {
    pub stack: Seq<FrameV>,
    pub mode: ModeV,
}

/// The abstract value of an action.
#[verifier::ext_equal]
pub enum ActionV {
    ReadModule { path: Seq<char> },
    CheckPath { path: Seq<char> },
    VisitBody { crate_name: Seq<char> },
    VisitInline { crate_name: Seq<char> },
    Warn { message: Seq<char> },
    Working,
    Done,
}

/// The abstract value of an event.
#[verifier::ext_equal]
pub enum EventV {
    Proceed,
    Parsed { items: Seq<Item> },
    Exists { found: bool },
}

/// One stack frame of the walk.
pub struct Frame {
    pub crate_dir: String,
    pub crate_name: String,
    pub mod_dir: String,
    pub items: Vec<Item>,
    pub idx: usize,
}

impl View for Frame {
    type V = FrameV;

    open spec fn view(&self) -> FrameV {
        FrameV {
            crate_dir: self.crate_dir@,
            crate_name: self.crate_name@,
            mod_dir: self.mod_dir@,
            items: self.items@,
            idx: self.idx as int,
        }
    }
}

/// What the machine is waiting for.
pub enum Mode {
    Launch { root: String },
    Reading { crate_dir: String, mod_dir: String },
    Visiting,
    Scanning,
    VisitingInline,
    CheckFile { name: String, path: String },
    CheckDir { name: String, path: String },
    CheckCrate { name: String, path: String },
    Finished,
}

impl View for Mode {
    type V = ModeV;

    open spec fn view(&self) -> ModeV {
        match self {
            Mode::Launch { root } => ModeV::Launch { root: root@ },
            Mode::Reading { crate_dir, mod_dir } => ModeV::Reading {
                crate_dir: crate_dir@,
                mod_dir: mod_dir@,
            },
            Mode::Visiting => ModeV::Visiting,
            Mode::Scanning => ModeV::Scanning,
            Mode::VisitingInline => ModeV::VisitingInline,
            Mode::CheckFile { name, path } => ModeV::CheckFile { name: name@, path: path@ },
            Mode::CheckDir { name, path } => ModeV::CheckDir { name: name@, path: path@ },
            Mode::CheckCrate { name, path } => ModeV::CheckCrate { name: name@, path: path@ },
            Mode::Finished => ModeV::Finished,
        }
    }
}

/// What the driver must do next.
///
/// After `VisitBody` the driver reads the body through
/// [`Resolver::body_items`]; after `VisitInline`, through
/// [`Resolver::inline_items`]. `ReadModule` asks for the file at `path`
/// to be read and parsed (a failure there is fatal and ends the run);
/// `CheckPath` asks whether `path` exists; `Warn` carries a diagnostic to
/// print; `Working` asks for nothing but another step; `Done` ends the
/// walk.
pub enum Action {
    ReadModule { path: String },
    CheckPath { path: String },
    VisitBody { crate_name: String },
    VisitInline { crate_name: String },
    Warn { message: String },
    Working,
    Done,
}

impl View for Action {
    type V = ActionV;

    open spec fn view(&self) -> ActionV {
        match self {
            Action::ReadModule { path } => ActionV::ReadModule { path: path@ },
            Action::CheckPath { path } => ActionV::CheckPath { path: path@ },
            Action::VisitBody { crate_name } => ActionV::VisitBody { crate_name: crate_name@ },
            Action::VisitInline { crate_name } => ActionV::VisitInline {
                crate_name: crate_name@,
            },
            Action::Warn { message } => ActionV::Warn { message: message@ },
            Action::Working => ActionV::Working,
            Action::Done => ActionV::Done,
        }
    }
}

/// The driver's answer to the previous action.
pub enum Event {
    Proceed,
    Parsed { items: Vec<Item> },
    Exists { found: bool },
}

impl View for Event {
    type V = EventV;

    open spec fn view(&self) -> EventV {
        match self {
            Event::Proceed => EventV::Proceed,
            Event::Parsed { items } => EventV::Parsed { items: items@ },
            Event::Exists { found } => EventV::Exists { found: *found },
        }
    }
}

/// The view of a frame stack.
pub open spec fn stack_view(s: Seq<Frame>) -> Seq<FrameV> {
    s.map_values(|f: Frame| f@)
}

/// The machine that drives one whole walk.
pub struct Resolver {
    pub stack: Vec<Frame>,
    pub mode: Mode,
}

impl View for Resolver {
    type V = StateV;

    open spec fn view(&self) -> StateV {
        StateV { stack: stack_view(self.stack@), mode: self.mode@ }
    }
}

/// The state a fresh machine starts in.
pub open spec fn spec_new(root: Seq<char>) -> StateV {
    StateV { stack: Seq::empty(), mode: ModeV::Launch { root } }
}

/// Which event each mode expects from the driver.
pub open spec fn expects(m: ModeV, ev: EventV) -> bool {
    match m {
        ModeV::Reading { .. } => ev is Parsed,
        ModeV::CheckFile { .. } => ev is Exists,
        ModeV::CheckDir { .. } => ev is Exists,
        ModeV::CheckCrate { .. } => ev is Exists,
        _ => ev is Proceed,
    }
}

/// The top frame with its scan position advanced by one declaration.
pub open spec fn spec_bump(stack: Seq<FrameV>) -> Seq<FrameV>
    recommends
        stack.len() > 0,
{
    stack.update(
        stack.len() - 1,
        FrameV {
            crate_dir: stack.last().crate_dir,
            crate_name: stack.last().crate_name,
            mod_dir: stack.last().mod_dir,
            items: stack.last().items,
            idx: stack.last().idx + 1,
        },
    )
}

/// The machine's well-formedness: whenever the mode refers to the
/// declaration under scan, the top frame exists and its position is in
/// range, and an inline visit really stands on an inline submodule.
pub open spec fn state_inv(s: StateV) -> bool {
    match s.mode {
        ModeV::Visiting => s.stack.len() > 0,
        ModeV::VisitingInline => s.stack.len() > 0 && ({
            let f = s.stack.last();
            0 <= f.idx < f.items.len() && (match f.items[f.idx] {
                Item::Module { body, .. } => body is Some,
                _ => false,
            })
        }),
        ModeV::CheckFile { .. } => s.stack.len() > 0 && 0 <= s.stack.last().idx
            < s.stack.last().items.len(),
        ModeV::CheckDir { .. } => s.stack.len() > 0 && 0 <= s.stack.last().idx
            < s.stack.last().items.len(),
        ModeV::CheckCrate { .. } => s.stack.len() > 0 && 0 <= s.stack.last().idx
            < s.stack.last().items.len(),
        _ => true,
    }
}

/// The machine's transition function. Reading it top to bottom gives the
/// whole walk:
///
/// - `Launch`: ask for the crate's entry module, `<root>/src/lib.rs`.
/// - `Reading`: a module body arrived; it is visited at once — before
///   anything it declares is followed — under the name of the crate's
///   root directory. That makes the traversal pre-order.
/// - `Visiting`, `VisitingInline`: the visit was shown; go back to the
///   scan (past the inline submodule just shown, in the latter case).
/// - `Scanning`: look at the declaration under scan. An inline submodule
///   is visited immediately and not walked further. A file-based
///   submodule is looked for at `<dir>/<name>.rs`, then at
///   `<dir>/<name>/mod.rs`; if neither exists, a warning is printed and
///   the walk continues. An external-crate reference is looked for as a
///   sibling directory of the current crate's root; if it exists, that
///   crate is walked with the same visitor, reported under its own name,
///   and if not, a warning is printed. Every other declaration is passed
///   over. A module whose declarations are exhausted is popped; an empty
///   stack ends the walk.
pub open spec fn spec_step(s: StateV, ev: EventV) -> (StateV, ActionV) {
    match s.mode {
        ModeV::Launch { root } => (
            StateV {
                stack: s.stack,
                mode: ModeV::Reading { crate_dir: root, mod_dir: spec_join(root, "src"@) },
            },
            ActionV::ReadModule { path: spec_join(root, "src/lib.rs"@) },
        ),
        ModeV::Reading { crate_dir, mod_dir } => match ev {
            EventV::Parsed { items } => (
                StateV {
                    stack: s.stack.push(
                        FrameV {
                            crate_dir: crate_dir,
                            crate_name: base_name(crate_dir),
                            mod_dir: mod_dir,
                            items: items,
                            idx: 0,
                        },
                    ),
                    mode: ModeV::Visiting,
                },
                ActionV::VisitBody { crate_name: base_name(crate_dir) },
            ),
            _ => (s, ActionV::Done),
        },
        ModeV::Visiting => (StateV { stack: s.stack, mode: ModeV::Scanning }, ActionV::Working),
        ModeV::VisitingInline => (
            StateV { stack: spec_bump(s.stack), mode: ModeV::Scanning },
            ActionV::Working,
        ),
        ModeV::Scanning => {
            if s.stack.len() == 0 {
                (StateV { stack: s.stack, mode: ModeV::Finished }, ActionV::Done)
            } else {
                let f = s.stack.last();
                if f.idx < 0 || f.idx >= f.items.len() {
                    (
                        StateV { stack: s.stack.drop_last(), mode: ModeV::Scanning },
                        ActionV::Working,
                    )
                } else {
                    match f.items[f.idx] {
                        Item::Module { name, body } => match body {
                            Option::Some(_) => (
                                StateV { stack: s.stack, mode: ModeV::VisitingInline },
                                ActionV::VisitInline { crate_name: f.crate_name },
                            ),
                            Option::None => (
                                StateV {
                                    stack: s.stack,
                                    mode: ModeV::CheckFile {
                                        name: name@,
                                        path: spec_join(f.mod_dir, name@ + ".rs"@),
                                    },
                                },
                                ActionV::CheckPath { path: spec_join(f.mod_dir, name@ + ".rs"@) },
                            ),
                        },
                        Item::ExternCrate { name } => (
                            StateV {
                                stack: s.stack,
                                mode: ModeV::CheckCrate {
                                    name: name@,
                                    path: spec_join(parent_dir(f.crate_dir), name@),
                                },
                            },
                            ActionV::CheckPath {
                                path: spec_join(parent_dir(f.crate_dir), name@),
                            },
                        ),
                        _ => (
                            StateV { stack: spec_bump(s.stack), mode: ModeV::Scanning },
                            ActionV::Working,
                        ),
                    }
                }
            }
        },
        ModeV::CheckFile { name, path } => match ev {
            EventV::Exists { found } => {
                if found {
                    let f = s.stack.last();
                    (
                        StateV {
                            stack: spec_bump(s.stack),
                            mode: ModeV::Reading { crate_dir: f.crate_dir, mod_dir: f.mod_dir },
                        },
                        ActionV::ReadModule { path: path },
                    )
                } else {
                    let p2 = spec_join(spec_join(s.stack.last().mod_dir, name), "mod.rs"@);
                    (
                        StateV { stack: s.stack, mode: ModeV::CheckDir { name: name, path: p2 } },
                        ActionV::CheckPath { path: p2 },
                    )
                }
            },
            _ => (s, ActionV::Done),
        },
        ModeV::CheckDir { name, path } => match ev {
            EventV::Exists { found } => {
                if found {
                    let f = s.stack.last();
                    (
                        StateV {
                            stack: spec_bump(s.stack),
                            mode: ModeV::Reading {
                                crate_dir: f.crate_dir,
                                mod_dir: spec_join(f.mod_dir, name),
                            },
                        },
                        ActionV::ReadModule { path: path },
                    )
                } else {
                    (
                        StateV { stack: spec_bump(s.stack), mode: ModeV::Scanning },
                        ActionV::Warn { message: "warning, can't find a mod's file"@ },
                    )
                }
            },
            _ => (s, ActionV::Done),
        },
        ModeV::CheckCrate { name, path } => match ev {
            EventV::Exists { found } => {
                if found {
                    (
                        StateV {
                            stack: spec_bump(s.stack),
                            mode: ModeV::Reading {
                                crate_dir: path,
                                mod_dir: spec_join(path, "src"@),
                            },
                        },
                        ActionV::ReadModule { path: spec_join(path, "src/lib.rs"@) },
                    )
                } else {
                    (
                        StateV { stack: spec_bump(s.stack), mode: ModeV::Scanning },
                        ActionV::Warn {
                            message: "warning, can't find an extern crate "@ + name,
                        },
                    )
                }
            },
            _ => (s, ActionV::Done),
        },
        ModeV::Finished => (s, ActionV::Done),
    }
}

/// What a step's action shows the visitor, read from the state after the
/// step: the owning crate's name and the declarations of the visited
/// body, or nothing for an action that visits nothing.
pub open spec fn visit_of(s: StateV, a: ActionV) -> Option<(Seq<char>, Seq<Item>)> {
    match a {
        ActionV::VisitBody { crate_name } => Option::Some((crate_name, s.stack.last().items)),
        ActionV::VisitInline { crate_name } => {
            let f = s.stack.last();
            match f.items[f.idx] {
                Item::Module { body, .. } => Option::Some((crate_name, body->0@)),
                _ => Option::None,
            }
        },
        _ => Option::None,
    }
}

/// The visits a run of the machine performs, in order, given a starting
/// state and the events the driver feeds it.
pub open spec fn run_visits(s: StateV, evs: Seq<EventV>) -> Seq<(Seq<char>, Seq<Item>)>
    decreases evs.len(),
{
    if evs.len() == 0 {
        Seq::empty()
    } else {
        let s2 = spec_step(s, evs[0]).0;
        let a = spec_step(s, evs[0]).1;
        let rest = run_visits(s2, evs.drop_first());
        match visit_of(s2, a) {
            Option::Some(v) => seq![v] + rest,
            Option::None => rest,
        }
    }
}

/// Law (depth-first pre-order): start a machine on a crate root whose
/// entry module declares two inline submodules, the first with body
/// `a_body`, the second with body `b_body`, in that order. Driving the
/// machine to the end visits exactly three bodies, in this order: the
/// entry module's own declarations, then `a_body`, then `b_body`, each
/// under the root's base name — the module before its submodules, and
/// the submodules in declaration order.
pub proof fn lemma_preorder_inline(
    root: Seq<char>,
    items: Seq<Item>,
    a_body: Seq<Item>,
    b_body: Seq<Item>,
)
    requires
        items.len() == 2,
        (match items[0] {
            Item::Module { body, .. } => body is Some && body->0@ == a_body,
            _ => false,
        }),
        (match items[1] {
            Item::Module { body, .. } => body is Some && body->0@ == b_body,
            _ => false,
        }),
    ensures
        ({
            let evs = seq![
                EventV::Proceed,
                EventV::Parsed { items },
                EventV::Proceed,
                EventV::Proceed,
                EventV::Proceed,
                EventV::Proceed,
                EventV::Proceed,
                EventV::Proceed,
                EventV::Proceed,
            ];
            run_visits(spec_new(root), evs) =~= seq![
                (base_name(root), items),
                (base_name(root), a_body),
                (base_name(root), b_body),
            ]
        }),
{
    let pr = EventV::Proceed;
    let pa = EventV::Parsed { items };
    let evs = seq![pr, pa, pr, pr, pr, pr, pr, pr, pr];
    let t1 = seq![pa, pr, pr, pr, pr, pr, pr, pr];
    let t2 = seq![pr, pr, pr, pr, pr, pr, pr];
    let t3 = seq![pr, pr, pr, pr, pr, pr];
    let t4 = seq![pr, pr, pr, pr, pr];
    let t5 = seq![pr, pr, pr, pr];
    let t6 = seq![pr, pr, pr];
    let t7 = seq![pr, pr];
    let t8 = seq![pr];
    let t9 = Seq::<EventV>::empty();
    assert(evs.drop_first() =~= t1);
    assert(t1.drop_first() =~= t2);
    assert(t2.drop_first() =~= t3);
    assert(t3.drop_first() =~= t4);
    assert(t4.drop_first() =~= t5);
    assert(t5.drop_first() =~= t6);
    assert(t6.drop_first() =~= t7);
    assert(t7.drop_first() =~= t8);
    assert(t8.drop_first() =~= t9);
    let s0 = spec_new(root);
    let s1 = spec_step(s0, pr).0;
    let s2 = spec_step(s1, pa).0;
    let s3 = spec_step(s2, pr).0;
    let s4 = spec_step(s3, pr).0;
    let s5 = spec_step(s4, pr).0;
    let s6 = spec_step(s5, pr).0;
    let s7 = spec_step(s6, pr).0;
    let s8 = spec_step(s7, pr).0;
    let s9 = spec_step(s8, pr).0;
    let fr = FrameV {
        crate_dir: root,
        crate_name: base_name(root),
        mod_dir: spec_join(root, "src"@),
        items: items,
        idx: 0,
    };
    assert(s1.mode == ModeV::Reading { crate_dir: root, mod_dir: spec_join(root, "src"@) });
    assert(s2.stack =~= seq![fr]);
    assert(s2.mode is Visiting);
    assert(visit_of(s2, spec_step(s1, pa).1) == Option::Some((base_name(root), items)));
    assert(s3.mode is Scanning && s3.stack =~= seq![fr]);
    assert(s4.mode is VisitingInline && s4.stack =~= seq![fr]);
    assert(visit_of(s4, spec_step(s3, pr).1) == Option::Some((base_name(root), a_body)));
    let fr1 = FrameV {
        crate_dir: root,
        crate_name: base_name(root),
        mod_dir: spec_join(root, "src"@),
        items: items,
        idx: 1,
    };
    assert(spec_bump(s4.stack) =~= seq![fr1]);
    assert(s5.mode is Scanning && s5.stack =~= seq![fr1]);
    assert(s6.mode is VisitingInline && s6.stack =~= seq![fr1]);
    assert(visit_of(s6, spec_step(s5, pr).1) == Option::Some((base_name(root), b_body)));
    let fr2 = FrameV {
        crate_dir: root,
        crate_name: base_name(root),
        mod_dir: spec_join(root, "src"@),
        items: items,
        idx: 2,
    };
    assert(spec_bump(s6.stack) =~= seq![fr2]);
    assert(s7.mode is Scanning && s7.stack =~= seq![fr2]);
    assert(s8.mode is Scanning && s8.stack =~= Seq::<FrameV>::empty());
    assert(spec_step(s8, pr).1 is Done);
    assert(run_visits(s9, t9) =~= Seq::<(Seq<char>, Seq<Item>)>::empty());
    assert(run_visits(s8, t8) =~= Seq::<(Seq<char>, Seq<Item>)>::empty());
    assert(run_visits(s7, t7) =~= run_visits(s8, t8));
    assert(run_visits(s6, t6) =~= run_visits(s7, t7));
    assert(run_visits(s5, t5) =~= seq![(base_name(root), b_body)] + run_visits(s6, t6));
    assert(run_visits(s4, t4) =~= run_visits(s5, t5));
    assert(run_visits(s3, t3) =~= seq![(base_name(root), a_body)] + run_visits(s4, t4));
    assert(run_visits(s2, t2) =~= run_visits(s3, t3));
    assert(run_visits(s1, t1) =~= seq![(base_name(root), items)] + run_visits(s2, t2));
    assert(run_visits(s0, evs) =~= run_visits(s1, t1));
    assert(run_visits(s0, evs) =~= seq![
        (base_name(root), items),
        (base_name(root), a_body),
        (base_name(root), b_body),
    ]);
}

proof fn lemma_stack_view_push(s: Seq<Frame>, f: Frame)
    ensures
        stack_view(s.push(f)) =~= stack_view(s).push(f@),
{
}

proof fn lemma_stack_view_drop_last(s: Seq<Frame>)
    requires
        s.len() > 0,
    ensures
        stack_view(s.drop_last()) =~= stack_view(s).drop_last(),
{
}

impl Resolver {
    /// A machine ready to walk the crate rooted at `root`.
    pub fn new(root: String) -> (r: Resolver)
        ensures
            r@ == spec_new(root@),
            state_inv(r@),
    {
        let r = Resolver { stack: Vec::new(), mode: Mode::Launch { root } };
        proof {
            assert(r@.stack =~= Seq::<FrameV>::empty());
            assert(r@ =~~= spec_new(r.mode->root@));
        }
        r
    }

    /// The body of the module on top of the stack; what a `VisitBody`
    /// action asks the driver to show the visitor.
    pub fn body_items(&self) -> (r: &Vec<Item>)
        requires
            self@.stack.len() > 0,
        ensures
            r@ == self@.stack.last().items,
    {
        let fi = self.stack.len() - 1;
        &self.stack[fi].items
    }

    /// The declarations of the inline submodule under scan; what a
    /// `VisitInline` action asks the driver to show the visitor.
    pub fn inline_items(&self) -> (r: &Vec<Item>)
        requires
            self@.stack.len() > 0,
            ({
                let f = self@.stack.last();
                0 <= f.idx < f.items.len() && (match f.items[f.idx] {
                    Item::Module { body, .. } => body is Some,
                    _ => false,
                })
            }),
        ensures
            (match self@.stack.last().items[self@.stack.last().idx] {
                Item::Module { body, .. } => body is Some && r@ == body->0@,
                _ => false,
            }),
    {
        let fi = self.stack.len() - 1;
        let idx = self.stack[fi].idx;
        match &self.stack[fi].items[idx] {
            Item::Module { body: Option::Some(b), .. } => b,
            _ => {
                proof {
                    assert(false);
                }
                &self.stack[fi].items
            }
        }
    }

    /// One transition. The returned action is what the driver must do;
    /// the event is its answer to the previous action. The new state and
    /// the action are exactly those of [`spec_step`].
    pub fn step(&mut self, ev: Event) -> (a: Action)
        requires
            expects(old(self)@.mode, ev@),
            state_inv(old(self)@),
        ensures
            final(self)@ == spec_step(old(self)@, ev@).0,
            a@ == spec_step(old(self)@, ev@).1,
            state_inv(final(self)@),
    {
        match &self.mode {
            Mode::Launch { root } => {
                let crate_dir = root.clone();
                let mod_dir = join_path(crate_dir.as_str(), "src");
                let path = join_path(crate_dir.as_str(), "src/lib.rs");
                self.mode = Mode::Reading { crate_dir, mod_dir };
                Action::ReadModule { path }
            }
            Mode::Reading { crate_dir, mod_dir } => {
                let cd = crate_dir.clone();
                let md = mod_dir.clone();
                match ev {
                    Event::Parsed { items } => {
                        let cn = file_name_of(cd.as_str());
                        let cn2 = cn.clone();
                        let f = Frame { crate_dir: cd, crate_name: cn, mod_dir: md, items, idx: 0 };
                        proof {
                            lemma_stack_view_push(self.stack@, f);
                        }
                        self.stack.push(f);
                        self.mode = Mode::Visiting;
                        Action::VisitBody { crate_name: cn2 }
                    }
                    _ => {
                        proof {
                            assert(false);
                        }
                        Action::Done
                    }
                }
            }
            Mode::Visiting => {
                self.mode = Mode::Scanning;
                Action::Working
            }
            Mode::VisitingInline => {
                self.bump();
                self.mode = Mode::Scanning;
                Action::Working
            }
            Mode::Scanning => {
                if self.stack.len() == 0 {
                    self.mode = Mode::Finished;
                    Action::Done
                } else {
                    let fi = self.stack.len() - 1;
                    if self.stack[fi].idx >= self.stack[fi].items.len() {
                        proof {
                            lemma_stack_view_drop_last(self.stack@);
                        }
                        self.stack.pop();
                        Action::Working
                    } else {
                        let idx = self.stack[fi].idx;
                        match &self.stack[fi].items[idx] {
                            Item::Module { name, body } => match body {
                                Option::Some(_) => {
                                    let cn = self.stack[fi].crate_name.clone();
                                    self.mode = Mode::VisitingInline;
                                    Action::VisitInline { crate_name: cn }
                                }
                                Option::None => {
                                    let mut file = name.clone();
                                    file.append(".rs");
                                    let nm = name.clone();
                                    let p = join_path(
                                        self.stack[fi].mod_dir.as_str(),
                                        file.as_str(),
                                    );
                                    let p2 = p.clone();
                                    self.mode = Mode::CheckFile { name: nm, path: p };
                                    Action::CheckPath { path: p2 }
                                }
                            },
                            Item::ExternCrate { name } => {
                                let par = parent_of(self.stack[fi].crate_dir.as_str());
                                let p = join_path(par.as_str(), name.as_str());
                                let p2 = p.clone();
                                let nm = name.clone();
                                self.mode = Mode::CheckCrate { name: nm, path: p };
                                Action::CheckPath { path: p2 }
                            }
                            _ => {
                                self.bump();
                                Action::Working
                            }
                        }
                    }
                }
            }
            Mode::CheckFile { name, path } => {
                let nm = name.clone();
                let p = path.clone();
                let found = match ev {
                    Event::Exists { found } => found,
                    _ => {
                        proof {
                            assert(false);
                        }
                        false
                    }
                };
                let fi = self.stack.len() - 1;
                if found {
                    let cd = self.stack[fi].crate_dir.clone();
                    let md = self.stack[fi].mod_dir.clone();
                    self.bump();
                    self.mode = Mode::Reading { crate_dir: cd, mod_dir: md };
                    Action::ReadModule { path: p }
                } else {
                    let d = join_path(self.stack[fi].mod_dir.as_str(), nm.as_str());
                    let p2 = join_path(d.as_str(), "mod.rs");
                    let p2b = p2.clone();
                    self.mode = Mode::CheckDir { name: nm, path: p2 };
                    Action::CheckPath { path: p2b }
                }
            }
            Mode::CheckDir { name, path } => {
                let nm = name.clone();
                let p = path.clone();
                let found = match ev {
                    Event::Exists { found } => found,
                    _ => {
                        proof {
                            assert(false);
                        }
                        false
                    }
                };
                let fi = self.stack.len() - 1;
                if found {
                    let cd = self.stack[fi].crate_dir.clone();
                    let md = join_path(self.stack[fi].mod_dir.as_str(), nm.as_str());
                    self.bump();
                    self.mode = Mode::Reading { crate_dir: cd, mod_dir: md };
                    Action::ReadModule { path: p }
                } else {
                    self.bump();
                    self.mode = Mode::Scanning;
                    Action::Warn { message: "warning, can't find a mod's file".to_owned() }
                }
            }
            Mode::CheckCrate { name, path } => {
                let nm = name.clone();
                let p = path.clone();
                let found = match ev {
                    Event::Exists { found } => found,
                    _ => {
                        proof {
                            assert(false);
                        }
                        false
                    }
                };
                if found {
                    let md = join_path(p.as_str(), "src");
                    let entry = join_path(p.as_str(), "src/lib.rs");
                    self.bump();
                    self.mode = Mode::Reading { crate_dir: p, mod_dir: md };
                    Action::ReadModule { path: entry }
                } else {
                    self.bump();
                    self.mode = Mode::Scanning;
                    let mut msg = "warning, can't find an extern crate ".to_owned();
                    msg.append(nm.as_str());
                    Action::Warn { message: msg }
                }
            }
            Mode::Finished => Action::Done,
        }
    }

    /// Advances the top frame past the declaration under scan.
    fn bump(&mut self)
        requires
            old(self)@.stack.len() > 0,
            old(self)@.stack.last().idx < old(self)@.stack.last().items.len(),
        ensures
            final(self)@.stack == spec_bump(old(self)@.stack),
            final(self)@.mode == old(self)@.mode,
    {
        proof {
            lemma_stack_view_drop_last(self.stack@);
        }
        let mut f = self.stack.pop().unwrap();
        proof {
            assert(f@ == old(self)@.stack.last());
        }
        let n = f.items.len();
        proof {
            assert(f.idx < n);
        }
        f.idx = f.idx + 1;
        proof {
            lemma_stack_view_push(self.stack@, f);
            assert(stack_view(self.stack@).push(f@) =~= spec_bump(old(self)@.stack));
        }
        self.stack.push(f);
    }
}

} // verus!
