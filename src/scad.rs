//! The render context: the deduplication table of fragments, the import
//! directives and the handles that refer to recorded fragments.
use vstd::prelude::*;
use crate::text::{dec, push_dec};

verus! {

/// How a recorded fragment is defined and referred to.
#[derive(Clone, Copy, Debug, PartialEq, Eq, Structural)]
pub enum AssignmentType {
    /// A value expression, defined as `function _vN() = text;`.
    Function,
    /// A call, defined as `module _vN() { text; }`.
    Call,
    /// A module body, defined as `module _vN text`.
    Module,
}

/// A reference to a fragment: a handle into the formatter's table, or a
/// literal printed where it is used.
#[derive(Debug, PartialEq, Eq)]
pub enum Assignment {
    Var { idx: usize, ty: AssignmentType },
    Inline { code: String },
}

/// What an [`Assignment`] denotes.
pub enum AssignmentView {
    Var { idx: nat, ty: AssignmentType },
    Inline { code: Seq<char> },
}

impl View for Assignment {
    type V = AssignmentView;

    open spec fn view(&self) -> AssignmentView {
        match self {
            Assignment::Var { idx, ty } => AssignmentView::Var { idx: *idx as nat, ty: *ty },
            Assignment::Inline { code } => AssignmentView::Inline { code: code@ },
        }
    }
}

impl Clone for Assignment {
    fn clone(&self) -> (r: Self)
        ensures
            r == *self,
    {
        match self {
            Assignment::Var { idx, ty } => Assignment::Var { idx: *idx, ty: *ty },
            Assignment::Inline { code } => Assignment::Inline { code: code.clone() },
        }
    }
}

/// The text by which a fragment is referred to: `_vN` for a module,
/// `_vN()` for a value or a call, the literal itself for an inline one.
pub open spec fn ref_text(a: AssignmentView) -> Seq<char> {
    match a {
        AssignmentView::Var { idx, ty } => match ty {
            AssignmentType::Module => seq!['_', 'v'] + dec(idx),
            _ => seq!['_', 'v'] + dec(idx) + seq!['(', ')'],
        },
        AssignmentView::Inline { code } => code,
    }
}

impl Assignment {
    /// The text by which this assignment is referred to in the emitted program.
    pub fn to_scad(&self) -> (r: String)
        ensures
            r@ == ref_text(self@),
    {
        match self {
            Assignment::Var { idx, ty } => {
                let mut s = String::new();
                proof { reveal_strlit("_v"); reveal_strlit("()"); }
                s.append("_v");
                push_dec(&mut s, *idx as u64);
                match ty {
                    AssignmentType::Module => {},
                    _ => { s.append("()"); },
                }
                assert(s@ =~= ref_text(self@));
                s
            },
            Assignment::Inline { code } => code.clone(),
        }
    }
}

/// A directive that brings in a library file.
#[derive(Debug, PartialEq, Eq)]
pub enum Import {
    Use(String),
    Include(String),
}

pub enum ImportView {
    Use(Seq<char>),
    Include(Seq<char>),
}

impl View for Import {
    type V = ImportView;

    open spec fn view(&self) -> ImportView {
        match self {
            Import::Use(p) => ImportView::Use(p@),
            Import::Include(p) => ImportView::Include(p@),
        }
    }
}

impl Clone for Import {
    fn clone(&self) -> (r: Self)
        ensures
            r == *self,
    {
        match self {
            Import::Use(p) => Import::Use(p.clone()),
            Import::Include(p) => Import::Include(p.clone()),
        }
    }
}

/// The line that states a directive: `use <p>;` or `include <p>;`.
pub open spec fn import_line(i: ImportView) -> Seq<char> {
    match i {
        ImportView::Use(p) => seq!['u', 's', 'e', ' '] + p + seq![';', '\n'],
        ImportView::Include(p) => seq!['i', 'n', 'c', 'l', 'u', 'd', 'e', ' '] + p + seq![';', '\n'],
    }
}

impl Import {
    /// The line that states this directive.
    pub fn to_scad(&self) -> (r: String)
        ensures
            r@ == import_line(self@),
    {
        let mut s = String::new();
        proof { reveal_strlit("use "); reveal_strlit("include "); reveal_strlit(";\n"); }
        match self {
            Import::Use(p) => {
                s.append("use ");
                s.append(p.as_str());
            },
            Import::Include(p) => {
                s.append("include ");
                s.append(p.as_str());
            },
        }
        s.append(";\n");
        assert(s@ =~= import_line(self@));
        s
    }
}

/// The state of a render pass.
pub struct FormatterView {
    /// Recorded fragment texts; the handle of `texts[i]` has index `i`.
    pub texts: Seq<Seq<char>>,
    /// The kind fixed by the first registration of each text.
    pub kinds: Seq<AssignmentType>,
    /// Directives in the order they were requested, repeats included.
    pub imports: Seq<ImportView>,
    /// Named outputs, each name once.
    pub outputs: Seq<(Seq<char>, AssignmentView)>,
}

impl FormatterView {
    pub open spec fn empty() -> FormatterView {
        FormatterView { texts: seq![], kinds: seq![], imports: seq![], outputs: seq![] }
    }

    /// Each recorded text is recorded once, with one kind, and each output
    /// name stands once.
    pub open spec fn wf(self) -> bool {
        &&& self.texts.len() == self.kinds.len()
        &&& forall|i: int, j: int|
            0 <= i < self.texts.len() && 0 <= j < self.texts.len() && i != j
                ==> #[trigger] self.texts[i] != #[trigger] self.texts[j]
        &&& forall|i: int, j: int|
            0 <= i < self.outputs.len() && 0 <= j < self.outputs.len() && i != j
                ==> #[trigger] self.outputs[i].0 != #[trigger] self.outputs[j].0
    }

    pub open spec fn has(self, t: Seq<char>) -> bool {
        exists|i: int| 0 <= i < self.texts.len() && self.texts[i] == t
    }

    /// The index under which `t` is recorded (meaningful where `has(t)`).
    pub open spec fn index_of(self, t: Seq<char>) -> int {
        choose|i: int| 0 <= i < self.texts.len() && self.texts[i] == t
    }

    /// The handle that refers to the text recorded at `i`.
    pub open spec fn handle(self, i: int) -> AssignmentView {
        AssignmentView::Var { idx: i as nat, ty: self.kinds[i] }
    }

    /// `self` is an earlier state of `later`: every recorded text keeps its
    /// index and kind.
    pub open spec fn prefix_of(self, later: FormatterView) -> bool {
        &&& self.texts.len() <= later.texts.len()
        &&& self.kinds.len() <= later.kinds.len()
        &&& later.texts.subrange(0, self.texts.len() as int) == self.texts
        &&& later.kinds.subrange(0, self.kinds.len() as int) == self.kinds
    }
}

/// Records `t`: a text already recorded gives back its handle and leaves the
/// state unchanged; a new text is recorded under the next index with kind `k`.
pub open spec fn emit_spec(s: FormatterView, t: Seq<char>, k: AssignmentType) -> (FormatterView, AssignmentView) {
    if s.has(t) {
        (s, s.handle(s.index_of(t)))
    } else {
        (
            FormatterView { texts: s.texts.push(t), kinds: s.kinds.push(k), ..s },
            AssignmentView::Var { idx: s.texts.len(), ty: k },
        )
    }
}

/// The handle, or the literal, that an optional assignment denotes.
pub open spec fn opt_view(o: Option<Assignment>) -> Option<AssignmentView> {
    match o {
        Some(a) => Some(a@),
        None => None,
    }
}

/// `key=reference`, as one argument of a call is written.
pub open spec fn arg_text(key: Seq<char>, v: AssignmentView) -> Seq<char> {
    key + seq!['='] + ref_text(v)
}

/// The present arguments, each as `key=reference`, joined by `", "`; absent
/// ones are left out.
pub open spec fn args_text(args: Seq<(Seq<char>, Option<AssignmentView>)>) -> Seq<char>
    decreases args.len(),
{
    if args.len() == 0 {
        seq![]
    } else {
        let p = args_text(args.drop_last());
        match args.last().1 {
            None => p,
            Some(v) => if p.len() == 0 {
                arg_text(args.last().0, v)
            } else {
                p + seq![',', ' '] + arg_text(args.last().0, v)
            },
        }
    }
}

/// Some argument is present.
pub open spec fn any_present(args: Seq<(Seq<char>, Option<AssignmentView>)>) -> bool {
    exists|i: int| 0 <= i < args.len() && (#[trigger] args[i]).1 is Some
}

/// `" children()"`, the suffix that applies a call to the block after it.
pub open spec fn children_suffix() -> Seq<char> {
    seq![' ', 'c', 'h', 'i', 'l', 'd', 'r', 'e', 'n', '(', ')']
}

/// The text that a call with present arguments records.
pub open spec fn call_text(name: Seq<char>, args: Seq<(Seq<char>, Option<AssignmentView>)>, operator: bool) -> Seq<char> {
    name + seq!['('] + args_text(args) + seq![')'] + if operator { children_suffix() } else { seq![] }
}

/// A call with no present argument is the inline literal `name()` and records
/// nothing; otherwise its text is recorded as a call.
pub open spec fn call_spec(
    s: FormatterView,
    name: Seq<char>,
    args: Seq<(Seq<char>, Option<AssignmentView>)>,
    operator: bool,
) -> (FormatterView, AssignmentView) {
    if !any_present(args) {
        (s, AssignmentView::Inline { code: name + seq!['(', ')'] })
    } else {
        emit_spec(s, call_text(name, args, operator), AssignmentType::Call)
    }
}

/// The directive lines: each distinct directive once, where it first occurs.
pub open spec fn imports_text(imports: Seq<ImportView>) -> Seq<char>
    decreases imports.len(),
{
    if imports.len() == 0 {
        seq![]
    } else {
        let p = imports_text(imports.drop_last());
        if imports.drop_last().contains(imports.last()) {
            p
        } else {
            p + import_line(imports.last())
        }
    }
}

/// The definition of the fragment recorded at index `i`.
pub open spec fn def_line(i: nat, t: Seq<char>, k: AssignmentType) -> Seq<char> {
    let name = seq!['_', 'v'] + dec(i);
    match k {
        AssignmentType::Call =>
            seq!['m', 'o', 'd', 'u', 'l', 'e', ' '] + name + seq!['(', ')', ' ', '{', ' '] + t + seq![';', ' ', '}', '\n'],
        AssignmentType::Function =>
            seq!['f', 'u', 'n', 'c', 't', 'i', 'o', 'n', ' '] + name + seq!['(', ')', ' ', '=', ' '] + t + seq![';', '\n'],
        AssignmentType::Module =>
            seq!['m', 'o', 'd', 'u', 'l', 'e', ' '] + name + seq![' '] + t + seq!['\n'],
    }
}

/// The definitions of the recorded fragments, by ascending index.
pub open spec fn defs_text(texts: Seq<Seq<char>>, kinds: Seq<AssignmentType>) -> Seq<char>
    decreases texts.len(),
{
    if texts.len() == 0 {
        seq![]
    } else {
        let n = (texts.len() - 1) as nat;
        defs_text(texts.drop_last(), kinds) + def_line(n, texts.last(), kinds[n as int])
    }
}

/// The preamble of a program: directives, then definitions.
pub open spec fn formatter_text(s: FormatterView) -> Seq<char> {
    imports_text(s.imports) + defs_text(s.texts, s.kinds)
}

/// A whole program: the preamble, a line break, and the reference to the
/// root fragment as a statement.
pub open spec fn program_text(s: FormatterView, root: AssignmentView) -> Seq<char> {
    formatter_text(s) + seq!['\n'] + ref_text(root) + seq![';']
}

/// The mutable context of one render pass.
pub struct Formatter {
    imports: Vec<Import>,
    texts: Vec<String>,
    kinds: Vec<AssignmentType>,
    outputs: Vec<(String, Assignment)>,
}

impl View for Formatter {
    type V = FormatterView;

    closed spec fn view(&self) -> FormatterView {
        FormatterView {
            texts: self.texts@.map_values(|t: String| t@),
            kinds: self.kinds@,
            imports: self.imports@.map_values(|i: Import| i@),
            outputs: self.outputs@.map_values(|o: (String, Assignment)| (o.0@, o.1@)),
        }
    }
}

impl Default for Formatter {
    fn default() -> (r: Formatter)
        ensures
            r@ == FormatterView::empty(),
    {
        Formatter::new()
    }
}

impl Formatter {
    /// A formatter with nothing recorded.
    pub fn new() -> (r: Formatter)
        ensures
            r@ == FormatterView::empty(),
            r@.wf(),
    {
        let r = Formatter { imports: Vec::new(), texts: Vec::new(), kinds: Vec::new(), outputs: Vec::new() };
        assert(r@.texts =~= seq![]);
        assert(r@.imports =~= seq![]);
        assert(r@.outputs =~= seq![]);
        r
    }

    /// Renders `v` into this formatter.
    pub fn assign<V: Scad>(&mut self, v: V) -> (r: Assignment)
        requires
            old(self)@.wf(),
        ensures
            final(self)@.wf(),
            (final(self)@, r@) == v.rendered(old(self)@),
    {
        v.assign(self)
    }

    /// Records `text` with kind `ty`, or gives back the handle of the equal
    /// text recorded before.
    pub fn emit(&mut self, text: String, ty: AssignmentType) -> (r: Assignment)
        requires
            old(self)@.wf(),
        ensures
            final(self)@.wf(),
            (final(self)@, r@) == emit_spec(old(self)@, text@, ty),
    {
        let n = self.texts.len();
        let mut i: usize = 0;
        while i < n
            invariant
                n == self.texts.len(),
                self@.wf(),
                self@ == old(self)@,
                i <= n,
                forall|j: int| 0 <= j < i ==> self@.texts[j] != text@,
            decreases n - i,
        {
            if self.texts[i] == text {
                let r = Assignment::Var { idx: i, ty: self.kinds[i] };
                proof {
                    assert(self@.texts[i as int] == text@);
                    let c = self@.index_of(text@);
                    assert(self@.texts[c] == text@);
                    assert(c == i as int);
                }
                return r;
            }
            i = i + 1;
        }
        proof {
            assert(!self@.has(text@));
        }
        let ghost t = text@;
        self.texts.push(text);
        self.kinds.push(ty);
        proof {
            assert(self@.texts =~= old(self)@.texts.push(t));
            assert(self@.kinds =~= old(self)@.kinds.push(ty));
            assert(self@.imports =~= old(self)@.imports);
            assert(self@.outputs =~= old(self)@.outputs);
        }
        Assignment::Var { idx: n, ty }
    }

    /// Records a value expression.
    pub fn value(&mut self, text: String) -> (r: Assignment)
        requires
            old(self)@.wf(),
        ensures
            final(self)@.wf(),
            (final(self)@, r@) == emit_spec(old(self)@, text@, AssignmentType::Function),
    {
        self.emit(text, AssignmentType::Function)
    }

    /// Records a module body.
    pub fn module(&mut self, text: String) -> (r: Assignment)
        requires
            old(self)@.wf(),
        ensures
            final(self)@.wf(),
            (final(self)@, r@) == emit_spec(old(self)@, text@, AssignmentType::Module),
    {
        self.emit(text, AssignmentType::Module)
    }

    /// Requests a `use` directive; repeats are dropped when printing.
    pub fn uses(&mut self, path: String)
        requires
            old(self)@.wf(),
        ensures
            final(self)@ == (FormatterView { imports: old(self)@.imports.push(ImportView::Use(path@)), ..old(self)@ }),
            final(self)@.wf(),
    {
        let ghost p = path@;
        self.imports.push(Import::Use(path));
        assert(self@.imports =~= old(self)@.imports.push(ImportView::Use(p)));
        assert(self@.texts =~= old(self)@.texts);
        assert(self@.outputs =~= old(self)@.outputs);
    }

    /// Requests an `include` directive; repeats are dropped when printing.
    pub fn includes(&mut self, path: String)
        requires
            old(self)@.wf(),
        ensures
            final(self)@ == (FormatterView { imports: old(self)@.imports.push(ImportView::Include(path@)), ..old(self)@ }),
            final(self)@.wf(),
    {
        let ghost p = path@;
        self.imports.push(Import::Include(path));
        assert(self@.imports =~= old(self)@.imports.push(ImportView::Include(p)));
        assert(self@.texts =~= old(self)@.texts);
        assert(self@.outputs =~= old(self)@.outputs);
    }
}

/// Views of call arguments: each key with its optional reference.
pub open spec fn args_view(args: Seq<(&str, Option<Assignment>)>) -> Seq<(Seq<char>, Option<AssignmentView>)> {
    args.map_values(|a: (&str, Option<Assignment>)| (a.0@, opt_view(a.1)))
}

/// The joined argument text is empty exactly when no argument is present.
pub proof fn lemma_args_text_empty(args: Seq<(Seq<char>, Option<AssignmentView>)>)
    ensures
        (args_text(args).len() == 0) == !any_present(args),
    decreases args.len(),
{
    if args.len() > 0 {
        let p = args.drop_last();
        lemma_args_text_empty(p);
        if any_present(p) {
            let i = choose|i: int| 0 <= i < p.len() && (#[trigger] p[i]).1 is Some;
            assert(args[i] == p[i]);
        }
        if any_present(args) {
            let i = choose|i: int| 0 <= i < args.len() && (#[trigger] args[i]).1 is Some;
            if i < p.len() {
                assert(p[i] == args[i]);
            }
        }
        match args.last().1 {
            None => {},
            Some(v) => {
                assert(args[args.len() - 1].1 is Some);
                assert(arg_text(args.last().0, v).len() > 0) by {
                    assert(arg_text(args.last().0, v)[args.last().0.len() as int] == '=');
                }
            },
        }
    }
}

/// Renders a value, a module body, a call or a whole tree: what can take part
/// in a render pass.
pub trait Scad {
    /// The state after rendering `self` from state `s`, and the reference to
    /// what was rendered.
    spec fn rendered(&self, s: FormatterView) -> (FormatterView, AssignmentView);

    /// Renders `self` into `f`, children before the fragment that refers to
    /// them.
    fn assign(&self, f: &mut Formatter) -> (r: Assignment)
        requires
            old(f)@.wf(),
        ensures
            final(f)@.wf(),
            (final(f)@, r@) == self.rendered(old(f)@);

    /// The whole program for `self`, rendered with a fresh formatter.
    fn to_scad(&self) -> (r: String)
        ensures
            r@ == program_text(self.rendered(FormatterView::empty()).0, self.rendered(FormatterView::empty()).1),
    {
        let mut f = Formatter::new();
        let a = self.assign(&mut f);
        let mut out = f.to_scad();
        proof { reveal_strlit("\n"); reveal_strlit(";"); }
        out.append("\n");
        let r = a.to_scad();
        out.append(r.as_str());
        out.append(";");
        assert(out@ =~= program_text(f@, a@));
        out
    }
}

impl Scad for Assignment {
    open spec fn rendered(&self, s: FormatterView) -> (FormatterView, AssignmentView) {
        (s, self@)
    }

    fn assign(&self, f: &mut Formatter) -> (r: Assignment) {
        self.clone()
    }
}

impl Import {
    /// Whether two directives are the same.
    pub fn same(&self, other: &Import) -> (r: bool)
        ensures
            r == (self@ == other@),
    {
        match (self, other) {
            (Import::Use(a), Import::Use(b)) => a.eq(b),
            (Import::Include(a), Import::Include(b)) => a.eq(b),
            _ => false,
        }
    }
}

fn def_line_string(i: usize, t: &String, k: AssignmentType) -> (r: String)
    ensures
        r@ == def_line(i as nat, t@, k),
{
    let mut s = String::new();
    proof {
        reveal_strlit("module _v");
        reveal_strlit("function _v");
        reveal_strlit("() { ");
        reveal_strlit("; }\n");
        reveal_strlit("() = ");
        reveal_strlit(";\n");
        reveal_strlit(" ");
        reveal_strlit("\n");
    }
    match k {
        AssignmentType::Call => {
            s.append("module _v");
            push_dec(&mut s, i as u64);
            s.append("() { ");
            s.append(t.as_str());
            s.append("; }\n");
        },
        AssignmentType::Function => {
            s.append("function _v");
            push_dec(&mut s, i as u64);
            s.append("() = ");
            s.append(t.as_str());
            s.append(";\n");
        },
        AssignmentType::Module => {
            s.append("module _v");
            push_dec(&mut s, i as u64);
            s.append(" ");
            s.append(t.as_str());
            s.append("\n");
        },
    }
    assert(s@ =~= def_line(i as nat, t@, k));
    s
}

impl Formatter {
    /// Builds a call: `name(k1=v1, k2=v2)` over the present arguments, with
    /// `" children()"` after it for an operator, recorded as a call; with no
    /// argument present, the inline literal `name()`.
    pub fn call(&mut self, name: &str, args: &[(&str, Option<Assignment>)], operator: bool) -> (r: Assignment)
        requires
            old(self)@.wf(),
        ensures
            final(self)@.wf(),
            (final(self)@, r@) == call_spec(old(self)@, name@, args_view(args@), operator),
    {
        let ghost av = args_view(args@);
        proof {
            reveal_strlit("(");
            reveal_strlit(")");
            reveal_strlit(", ");
            reveal_strlit("=");
            reveal_strlit(" children()");
        }
        let mut out = String::from_str(name);
        out.append("(");
        let mut first = true;
        let n = args.len();
        let mut i: usize = 0;
        while i < n
            invariant
                n == args@.len(),
                av == args_view(args@),
                i <= n,
                out@ == name@ + seq!['('] + args_text(av.take(i as int)),
                first == !any_present(av.take(i as int)),
            decreases n - i,
        {
            proof {
                reveal_strlit(", ");
                reveal_strlit("=");
                assert(av.take(i as int + 1).drop_last() =~= av.take(i as int));
                lemma_args_text_empty(av.take(i as int));
                lemma_args_text_empty(av.take(i as int + 1));
                assert(av.take(i as int + 1).last() == av[i as int]);
            }
            proof {
                assert(av[i as int] == (args@[i as int].0@, opt_view(args@[i as int].1)));
            }
            match &args[i].1 {
                Some(v) => {
                    let ghost out0 = out@;
                    let ghost p = args_text(av.take(i as int));
                    let ghost first_before = first;
                    proof {
                        assert(av[i as int].1 == Some(v@));
                        assert(av[i as int].0 == args@[i as int].0@);
                        assert(args_text(av.take(i as int + 1)) == if p.len() == 0 {
                            arg_text(av[i as int].0, v@)
                        } else {
                            p + seq![',', ' '] + arg_text(av[i as int].0, v@)
                        });
                    }
                    if !first {
                        out.append(", ");
                    }
                    let ghost out1 = out@;
                    first = false;
                    let key = args[i].0;
                    out.append(key);
                    out.append("=");
                    let vt = v.to_scad();
                    out.append(vt.as_str());
                    proof {
                        assert(key@ == av[i as int].0);
                        assert(out@ =~= out1 + arg_text(av[i as int].0, v@));
                        if first_before {
                            assert(out1 == out0);
                        } else {
                            assert(out1 =~= out0 + seq![',', ' ']);
                        }
                    }
                    proof {
                        assert(av.take(i as int + 1)[i as int].1 is Some);
                        assert(vt@ == ref_text(v@));
                        assert((p.len() == 0) == first_before);
                        if first_before {
                            assert(p =~= seq![]);
                            assert(out@ =~= out0 + arg_text(av[i as int].0, v@));
                        } else {
                            assert(out@ =~= out0 + seq![',', ' '] + arg_text(av[i as int].0, v@));
                        }
                        assert(out@ =~= name@ + seq!['('] + args_text(av.take(i as int + 1)));
                    }
                },
                None => {
                    proof {
                        assert(av[i as int].1 is None);
                        assert(args_text(av.take(i as int + 1)) == args_text(av.take(i as int)));
                        if any_present(av.take(i as int + 1)) {
                            let j = choose|j: int| 0 <= j < i + 1 && (#[trigger] av.take(i as int + 1)[j]).1 is Some;
                            assert(av.take(i as int)[j] == av.take(i as int + 1)[j]);
                        }
                    }
                },
            }
            i = i + 1;
            assert(out@ =~= name@ + seq!['('] + args_text(av.take(i as int)));
        }
        assert(av.take(n as int) =~= av);
        out.append(")");
        if first {
            assert(out@ =~= name@ + seq!['(', ')']) by {
                lemma_args_text_empty(av);
            }
            return Assignment::Inline { code: out };
        }
        if operator {
            out.append(" children()");
        }
        assert(out@ =~= call_text(name@, av, operator));
        self.emit(out, AssignmentType::Call)
    }

    /// Names an output; a name given before is given the new assignment.
    pub fn output(&mut self, name: String, assignment: Assignment)
        requires
            old(self)@.wf(),
        ensures
            final(self)@.wf(),
            final(self)@.texts == old(self)@.texts,
            final(self)@.kinds == old(self)@.kinds,
            final(self)@.imports == old(self)@.imports,
            exists|i: int| 0 <= i < final(self)@.outputs.len() && final(self)@.outputs[i] == (name@, assignment@),
            forall|i: int| 0 <= i < old(self)@.outputs.len() && old(self)@.outputs[i].0 != name@
                ==> final(self)@.outputs.contains(#[trigger] old(self)@.outputs[i]),
            forall|i: int| 0 <= i < final(self)@.outputs.len() && final(self)@.outputs[i].0 != name@
                ==> old(self)@.outputs.contains(#[trigger] final(self)@.outputs[i]),
    {
        let n = self.outputs.len();
        let mut i: usize = 0;
        while i < n
            invariant
                n == self.outputs.len(),
                self@ == old(self)@,
                self@.wf(),
                i <= n,
                forall|j: int| 0 <= j < i ==> self@.outputs[j].0 != name@,
            decreases n - i,
        {
            if self.outputs[i].0 == name {
                let ghost entry = (name@, assignment@);
                self.outputs.set(i, (name, assignment));
                proof {
                    assert(self@.outputs =~= old(self)@.outputs.update(i as int, entry));
                    assert(self@.texts =~= old(self)@.texts);
                    assert(self@.imports =~= old(self)@.imports);
                    assert(self@.outputs[i as int] == entry);
                    assert forall|k: int| 0 <= k < self@.outputs.len() implies #[trigger] self@.outputs[k].0 == old(self)@.outputs[k].0 by {}
                    assert forall|k: int| 0 <= k < old(self)@.outputs.len() && old(self)@.outputs[k].0 != name@
                        implies self@.outputs.contains(#[trigger] old(self)@.outputs[k]) by {
                        assert(self@.outputs[k] == old(self)@.outputs[k]);
                    }
                    assert forall|k: int| 0 <= k < self@.outputs.len() && self@.outputs[k].0 != name@
                        implies old(self)@.outputs.contains(#[trigger] self@.outputs[k]) by {
                        assert(self@.outputs[k] == old(self)@.outputs[k]);
                    }
                }
                return;
            }
            i = i + 1;
        }
        let ghost entry = (name@, assignment@);
        self.outputs.push((name, assignment));
        proof {
            assert(self@.outputs =~= old(self)@.outputs.push(entry));
            assert(self@.texts =~= old(self)@.texts);
            assert(self@.imports =~= old(self)@.imports);
            assert(self@.outputs[n as int] == entry);
            assert forall|k: int| 0 <= k < old(self)@.outputs.len() && old(self)@.outputs[k].0 != name@
                implies self@.outputs.contains(#[trigger] old(self)@.outputs[k]) by {
                assert(self@.outputs[k] == old(self)@.outputs[k]);
            }
            assert forall|k: int| 0 <= k < self@.outputs.len() && self@.outputs[k].0 != name@
                implies old(self)@.outputs.contains(#[trigger] self@.outputs[k]) by {
                assert(self@.outputs[k] == old(self)@.outputs[k]);
            }
        }
    }

    /// The preamble: each distinct directive once, in the order of first
    /// request, then one definition per recorded fragment by ascending index.
    pub fn to_scad(&self) -> (r: String)
        requires
            self@.wf(),
        ensures
            r@ == formatter_text(self@),
    {
        let mut out = String::new();
        let ghost imps = self@.imports;
        let n = self.imports.len();
        let mut i: usize = 0;
        while i < n
            invariant
                n == self.imports@.len(),
                imps == self@.imports,
                i <= n,
                out@ == imports_text(imps.take(i as int)),
            decreases n - i,
        {
            let mut seen = false;
            let mut j: usize = 0;
            while j < i
                invariant
                    n == self.imports@.len(),
                    imps == self@.imports,
                    i < n,
                    j <= i,
                    seen == exists|k: int| 0 <= k < j && imps[k] == imps[i as int],
                decreases i - j,
            {
                proof {
                    assert(imps[j as int] == self.imports@[j as int]@);
                    assert(imps[i as int] == self.imports@[i as int]@);
                }
                let ghost before = seen;
                if self.imports[j].same(&self.imports[i]) {
                    seen = true;
                }
                proof {
                    if !before && !seen {
                        assert forall|k: int| 0 <= k < j + 1 implies imps[k] != imps[i as int] by {
                            if k < j {
                                assert(!(0 <= k < j && imps[k] == imps[i as int]));
                            }
                        }
                    }
                }
                j = j + 1;
            }
            proof {
                let t = imps.take(i as int + 1);
                assert(t.drop_last() =~= imps.take(i as int));
                assert(t.last() == imps[i as int]);
                if seen {
                    let k = choose|k: int| 0 <= k < i && imps[k] == imps[i as int];
                    assert(imps.take(i as int)[k] == imps[i as int]);
                }
                if imps.take(i as int).contains(imps[i as int]) {
                    let k = choose|k: int| 0 <= k < i && imps.take(i as int)[k] == imps[i as int];
                    assert(imps[k] == imps[i as int]);
                }
            }
            if !seen {
                let line = self.imports[i].to_scad();
                out.append(line.as_str());
            }
            i = i + 1;
        }
        assert(imps.take(n as int) =~= imps);
        let ghost head = out@;
        let ghost texts = self@.texts;
        let ghost kinds = self@.kinds;
        let m = self.texts.len();
        let mut i: usize = 0;
        while i < m
            invariant
                m == self.texts@.len(),
                texts == self@.texts,
                kinds == self@.kinds,
                self.kinds@.len() == m,
                i <= m,
                out@ == head + defs_text(texts.take(i as int), kinds),
            decreases m - i,
        {
            let line = def_line_string(i, &self.texts[i], self.kinds[i]);
            out.append(line.as_str());
            proof {
                let t = texts.take(i as int + 1);
                assert(t.drop_last() =~= texts.take(i as int));
                assert(t.last() == texts[i as int]);
            }
            i = i + 1;
            assert(out@ =~= head + defs_text(texts.take(i as int), kinds));
        }
        assert(texts.take(m as int) =~= texts);
        out
    }
}

} // verus!
