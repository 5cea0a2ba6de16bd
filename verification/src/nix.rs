//! Declarative builder for environment descriptors and its renderer.
//!
//! A [`NixBuilder`] accumulates a recursive-mode flag, an ordered list of
//! named local bindings, a deduplicated ordered list of package inputs and an
//! ordered list of uniquely-keyed attributes.  [`NixBuilder::build`] renders
//! that state to descriptor text following a fixed grammar; the whole output
//! is pinned down by the spec function [`render_text`].

use vstd::prelude::*;
use vstd::string::StringExecFns;
use crate::util::indentd;
use crate::util::indent_text;
use crate::util::str_eq;

verus! {

/// A fragment of descriptor text: either a verbatim expression, or a string
/// body that the renderer wraps in the descriptor language's verbatim-string
/// delimiters.
pub enum NixValue {
    Expr(String),
    Str(String),
}

/// Abstract value of a [`NixValue`].
pub enum NixValueView {
    Expr(Seq<char>),
    Str(Seq<char>),
}

impl View for NixValue {
    type V = NixValueView;

    open spec fn view(&self) -> NixValueView {
        match self {
            NixValue::Expr(s) => NixValueView::Expr(s@),
            NixValue::Str(s) => NixValueView::Str(s@),
        }
    }
}

impl NixValueView {
    /// The final text of the value: a quoted value is wrapped in `''`
    /// delimiters, an expression is inserted verbatim.
    pub open spec fn text(self) -> Seq<char> {
        match self {
            NixValueView::Expr(s) => s,
            NixValueView::Str(s) => "''"@ + s + "''"@,
        }
    }
}

impl NixValue {
    /// The final text of the value.
    pub fn to_text(&self) -> (r: String)
        ensures
            r@ == self@.text(),
    {
        match self {
            NixValue::Expr(s) => s.clone(),
            NixValue::Str(s) => {
                let mut r = String::from_str("''");
                r.append(s.as_str());
                r.append("''");
                r
            },
        }
    }
}

/// A named local binding of the descriptor's binding scope.
pub struct LetVar {
    pub name: String,
    pub value: NixValue,
}

/// Abstract value of a [`LetVar`].
pub struct LetVarView {
    pub name: Seq<char>,
    pub value: NixValueView,
}

impl View for LetVar {
    type V = LetVarView;

    open spec fn view(&self) -> LetVarView {
        LetVarView { name: self.name@, value: self.value@ }
    }
}

/// A keyed attribute of the descriptor's environment block, optionally
/// preceded by a comment line.
pub struct AttrEntry {
    pub key: String,
    pub value: NixValue,
    pub comment: Option<String>,
}

/// Abstract value of an [`AttrEntry`].
pub struct AttrView {
    pub key: Seq<char>,
    pub value: NixValueView,
    pub comment: Option<Seq<char>>,
}

impl View for AttrEntry {
    type V = AttrView;

    open spec fn view(&self) -> AttrView {
        AttrView {
            key: self.key@,
            value: self.value@,
            comment: match &self.comment {
                Some(c) => Some(c@),
                None => None,
            },
        }
    }
}

/// The reserved attribute key under which the renderer emits the inputs
/// collection; callers may not reuse it as an attribute key.
pub open spec fn reserved_key() -> Seq<char> {
    "buildInputs"@
}

/// Builder for environment descriptors.
pub struct NixBuilder {
    rec: bool,
    let_vars: Vec<LetVar>,
    build_inputs: Vec<String>,
    attrs: Vec<AttrEntry>,
}

/// Abstract state of a [`NixBuilder`].
pub struct NixBuilderView {
    pub rec: bool,
    pub let_vars: Seq<LetVarView>,
    pub inputs: Seq<Seq<char>>,
    pub attrs: Seq<AttrView>,
}

impl View for NixBuilder {
    type V = NixBuilderView;

    closed spec fn view(&self) -> NixBuilderView {
        NixBuilderView {
            rec: self.rec,
            let_vars: self.let_vars@.map(|i: int, v: LetVar| v@),
            inputs: self.build_inputs@.map(|i: int, s: String| s@),
            attrs: self.attrs@.map(|i: int, a: AttrEntry| a@),
        }
    }
}

impl NixBuilderView {
    /// Whether a binding of this name is already present.
    pub open spec fn has_let_var(self, name: Seq<char>) -> bool {
        exists|i: int| 0 <= i < self.let_vars.len() && self.let_vars[i].name == name
    }

    /// Whether an attribute with this key is already present.
    pub open spec fn has_attr(self, key: Seq<char>) -> bool {
        exists|i: int| 0 <= i < self.attrs.len() && self.attrs[i].key == key
    }

    /// Whether this key may not be used for a new attribute: it is the
    /// reserved inputs key, or an attribute with it is already present.
    pub open spec fn attr_blocked(self, key: Seq<char>) -> bool {
        key == reserved_key() || self.has_attr(key)
    }

    /// The builder's uniqueness invariants: binding names are unique,
    /// attribute keys are unique and never the reserved key, and inputs are
    /// deduplicated.
    pub open spec fn wf(self) -> bool {
        &&& forall|i: int, j: int|
            0 <= i < j < self.let_vars.len() ==> self.let_vars[i].name != self.let_vars[j].name
        &&& forall|i: int, j: int|
            0 <= i < j < self.attrs.len() ==> self.attrs[i].key != self.attrs[j].key
        &&& forall|i: int| 0 <= i < self.attrs.len() ==> self.attrs[i].key != reserved_key()
        &&& forall|i: int, j: int|
            0 <= i < j < self.inputs.len() ==> self.inputs[i] != self.inputs[j]
    }
}

/// A collision among the builder's uniquely-named entries.
#[derive(Debug)]
pub enum NixError {
    /// A binding of this name is already set.
    LetVarSet(String),
    /// An attribute with this key is already set, or the key is reserved.
    AttrSet(String),
}

/// `inputs` with `p` appended, unless an equal entry is already present: a
/// duplicate is a silent no-op and the first occurrence keeps its position.
pub open spec fn add_input_spec(inputs: Seq<Seq<char>>, p: Seq<char>) -> Seq<Seq<char>> {
    if inputs.contains(p) {
        inputs
    } else {
        inputs.push(p)
    }
}

/// `inputs` extended by every element of `ps` in order, deduplicating as
/// [`add_input_spec`] does.
pub open spec fn add_inputs_spec(inputs: Seq<Seq<char>>, ps: Seq<Seq<char>>) -> Seq<Seq<char>>
    decreases ps.len(),
{
    if ps.len() == 0 {
        inputs
    } else {
        add_inputs_spec(add_input_spec(inputs, ps[0]), ps.drop_first())
    }
}

/// Appending one more package distributes over the front-to-back fold.
pub proof fn lemma_add_inputs_snoc(inputs: Seq<Seq<char>>, ps: Seq<Seq<char>>, p: Seq<char>)
    ensures
        add_inputs_spec(inputs, ps.push(p)) == add_input_spec(add_inputs_spec(inputs, ps), p),
    decreases ps.len(),
{
    let ps2 = ps.push(p);
    if ps.len() == 0 {
        assert(ps2[0] == p);
        assert(ps2.drop_first() =~= Seq::<Seq<char>>::empty());
        assert(add_inputs_spec(inputs, ps2) == add_inputs_spec(
            add_input_spec(inputs, p),
            ps2.drop_first(),
        ));
        assert(add_inputs_spec(add_input_spec(inputs, p), Seq::<Seq<char>>::empty())
            == add_input_spec(inputs, p));
        assert(add_inputs_spec(inputs, ps) == inputs);
    } else {
        assert(ps2[0] == ps[0]);
        assert(ps2.drop_first() =~= ps.drop_first().push(p));
        assert(add_inputs_spec(inputs, ps2) == add_inputs_spec(
            add_input_spec(inputs, ps[0]),
            ps2.drop_first(),
        ));
        lemma_add_inputs_snoc(add_input_spec(inputs, ps[0]), ps.drop_first(), p);
        assert(add_inputs_spec(inputs, ps) == add_inputs_spec(
            add_input_spec(inputs, ps[0]),
            ps.drop_first(),
        ));
    }
}

/// Adding the same input reference twice yields the same list as adding it
/// once, entry and position included.
pub proof fn lemma_add_input_idempotent(inputs: Seq<Seq<char>>, p: Seq<char>)
    ensures
        add_input_spec(add_input_spec(inputs, p), p) == add_input_spec(inputs, p),
        add_input_spec(add_input_spec(inputs, p), p).len() == add_input_spec(inputs, p).len(),
{
    if !inputs.contains(p) {
        assert(inputs.push(p)[inputs.len() as int] == p);
        assert(inputs.push(p).contains(p));
    }
}

/// The fixed header line declaring the overridable package-set parameter.
pub open spec fn header_text() -> Seq<char> {
    "{ pkgs ? import <nixpkgs> {} }:\n"@
}

/// A newline.
pub open spec fn nl() -> Seq<char> {
    "\n"@
}

/// One rendered binding: `name = value;`, indented two levels, on its own
/// line.
pub open spec fn let_var_line(v: LetVarView) -> Seq<char> {
    indent_text(v.name + " = "@ + v.value.text() + ";"@, 4) + nl()
}

/// The first `n` rendered bindings, in insertion order.
pub open spec fn let_var_lines(vs: Seq<LetVarView>, n: int) -> Seq<char>
    decreases n,
{
    if n <= 0 {
        Seq::<char>::empty()
    } else {
        let_var_lines(vs, n - 1) + let_var_line(vs[n - 1])
    }
}

/// The local-binding block: absent when there are no bindings, otherwise the
/// scope opener, one line per binding, and the scope closer.
pub open spec fn let_block_text(vs: Seq<LetVarView>) -> Seq<char> {
    if vs.len() == 0 {
        Seq::<char>::empty()
    } else {
        indent_text("let"@, 2) + nl() + let_var_lines(vs, vs.len() as int) + indent_text("in"@, 2)
            + nl()
    }
}

/// The line opening the environment-shell construct, with the `rec` modifier
/// when the builder is in recursive mode.
pub open spec fn shell_open_text(rec: bool) -> Seq<char> {
    indent_text("pkgs.mkShell "@, 2) + (if rec {
        "rec "@
    } else {
        Seq::<char>::empty()
    }) + "{\n"@
}

/// The opening of a rendered array, qualified by a namespace when one is
/// given.
pub open spec fn array_open_text(ns: Option<Seq<char>>) -> Seq<char> {
    match ns {
        Some(n) => "with "@ + n + "; ["@,
        None => "["@,
    }
}

/// The separator after the array opener: a line break in multi-line mode, a
/// space otherwise.
pub open spec fn array_sep_text(multiline: bool) -> Seq<char> {
    if multiline {
        "\n"@
    } else {
        " "@
    }
}

/// The first `n` rendered array elements: each on its own indented line in
/// multi-line mode, each followed by a space otherwise.
pub open spec fn array_items_text(vals: Seq<Seq<char>>, multiline: bool, n: int) -> Seq<char>
    decreases n,
{
    if n <= 0 {
        Seq::<char>::empty()
    } else {
        array_items_text(vals, multiline, n - 1) + (if multiline {
            indent_text(vals[n - 1], 2) + nl()
        } else {
            vals[n - 1] + " "@
        })
    }
}

/// A rendered array of values.
pub open spec fn fmt_array_text(
    ns: Option<Seq<char>>,
    multiline: bool,
    vals: Seq<Seq<char>>,
) -> Seq<char> {
    array_open_text(ns) + array_sep_text(multiline) + array_items_text(
        vals,
        multiline,
        vals.len() as int,
    ) + "]"@
}

/// The reserved inputs attribute: a multi-line bracketed list under the
/// package-set namespace, always rendered multi-line.
pub open spec fn inputs_attr_text(inputs: Seq<Seq<char>>) -> Seq<char> {
    indent_text("buildInputs = "@ + fmt_array_text(Some("pkgs"@), true, inputs) + ";"@, 4) + nl()
}

/// One rendered attribute: an optional comment line, then `key = value;`.
pub open spec fn attr_chunk(a: AttrView) -> Seq<char> {
    (match a.comment {
        Some(c) => indent_text("# "@ + c, 4) + nl(),
        None => Seq::<char>::empty(),
    }) + indent_text(a.key + " = "@ + a.value.text() + ";"@, 4) + nl()
}

/// The first `n` rendered attributes, in insertion order.
pub open spec fn attr_chunks(attrs: Seq<AttrView>, n: int) -> Seq<char>
    decreases n,
{
    if n <= 0 {
        Seq::<char>::empty()
    } else {
        attr_chunks(attrs, n - 1) + attr_chunk(attrs[n - 1])
    }
}

/// The closing brace line of the environment block.
pub open spec fn close_text() -> Seq<char> {
    indent_text("}"@, 2) + nl()
}

/// The rendered descriptor: header, optional binding block, environment
/// block opener, the reserved inputs attribute, the attributes in insertion
/// order, and the closing brace.
pub open spec fn render_text(b: NixBuilderView) -> Seq<char> {
    header_text() + let_block_text(b.let_vars) + shell_open_text(b.rec) + inputs_attr_text(b.inputs)
        + attr_chunks(b.attrs, b.attrs.len() as int) + close_text()
}

/// Rendering is a pure function of the builder's abstract state: builders
/// with equal state render to byte-identical text.
pub proof fn lemma_render_deterministic(a: NixBuilderView, b: NixBuilderView)
    requires
        a == b,
    ensures
        render_text(a) == render_text(b),
{
}

/// After a successful add of a binding named `name`, the builder has that
/// name, so a second add of the same name must collide.
pub proof fn lemma_second_binding_collides(b: NixBuilderView, name: Seq<char>, value: NixValueView)
    ensures
        (NixBuilderView {
            let_vars: b.let_vars.push(LetVarView { name, value }),
            ..b
        }).has_let_var(name),
{
    let pushed = b.let_vars.push(LetVarView { name, value });
    assert(pushed[b.let_vars.len() as int].name == name);
}

/// An attribute keyed with the reserved inputs identifier is always refused,
/// whatever the builder's state.
pub proof fn lemma_reserved_key_blocked(b: NixBuilderView)
    ensures
        b.attr_blocked(reserved_key()),
{
}

/// A rendered array of values, as [`fmt_array_text`] describes it.
pub fn fmt_array(namespace: Option<&str>, multiline: bool, vals: &Vec<String>) -> (r: String)
    ensures
        r@ == fmt_array_text(
            match namespace {
                Some(ns) => Some(ns@),
                None => None,
            },
            multiline,
            vals.deep_view(),
        ),
{
    let ghost ns_view: Option<Seq<char>> = match namespace {
        Some(ns) => Some(ns@),
        None => None,
    };
    let mut buf = String::new();
    match namespace {
        Some(ns) => {
            buf.append("with ");
            buf.append(ns);
            buf.append("; [");
        },
        None => {
            buf.append("[");
        },
    }
    proof {
        assert(buf@ =~= array_open_text(ns_view));
    }
    if multiline {
        buf.append("\n");
    } else {
        buf.append(" ");
    }
    proof {
        assert(buf@ =~= array_open_text(ns_view) + array_sep_text(multiline));
    }
    let mut i: usize = 0;
    while i < vals.len()
        invariant
            i <= vals.len(),
            buf@ == array_open_text(ns_view) + array_sep_text(multiline) + array_items_text(
                vals.deep_view(),
                multiline,
                i as int,
            ),
        decreases vals.len() - i,
    {
        if multiline {
            let ind = indentd(vals[i].as_str(), 2);
            buf.append(ind.as_str());
            buf.append("\n");
        } else {
            buf.append(vals[i].as_str());
            buf.append(" ");
        }
        proof {
            assert(vals.deep_view()[i as int] == vals@[i as int]@);
            assert(buf@ =~= array_open_text(ns_view) + array_sep_text(multiline)
                + array_items_text(vals.deep_view(), multiline, i + 1));
        }
        i = i + 1;
    }
    buf.append("]");
    proof {
        assert(buf@ =~= fmt_array_text(ns_view, multiline, vals.deep_view()));
    }
    buf
}

impl NixBuilder {
    /// An empty builder: non-recursive, no bindings, no inputs, no
    /// attributes.
    pub fn new() -> (r: Self)
        ensures
            r@.rec == false,
            r@.let_vars == Seq::<LetVarView>::empty(),
            r@.inputs == Seq::<Seq<char>>::empty(),
            r@.attrs == Seq::<AttrView>::empty(),
            r@.wf(),
    {
        let r = NixBuilder { rec: false, let_vars: Vec::new(), build_inputs: Vec::new(), attrs: Vec::new() };
        proof {
            assert(r@.let_vars =~= Seq::<LetVarView>::empty());
            assert(r@.inputs =~= Seq::<Seq<char>>::empty());
            assert(r@.attrs =~= Seq::<AttrView>::empty());
        }
        r
    }

    /// Declares the generated block self-referential; idempotent.
    pub fn rec(&mut self)
        ensures
            final(self)@ == (NixBuilderView { rec: true, ..old(self)@ }),
            old(self)@.wf() ==> final(self)@.wf(),
    {
        self.rec = true;
    }

    /// Whether a binding of this name is already present.
    fn has_let_var_exec(&self, name: &str) -> (r: bool)
        ensures
            r == self@.has_let_var(name@),
    {
        let mut i: usize = 0;
        while i < self.let_vars.len()
            invariant
                i <= self.let_vars.len(),
                forall|k: int| 0 <= k < i ==> self@.let_vars[k].name != name@,
            decreases self.let_vars.len() - i,
        {
            if str_eq(self.let_vars[i].name.as_str(), name) {
                proof {
                    assert(self@.let_vars[i as int].name == name@);
                }
                return true;
            }
            i = i + 1;
        }
        false
    }

    /// Whether this key is the reserved inputs key or an attribute with it is
    /// already present.
    fn is_attr_set(&self, var: &str) -> (r: bool)
        ensures
            r == self@.attr_blocked(var@),
    {
        if str_eq(var, "buildInputs") {
            return true;
        }
        let mut i: usize = 0;
        while i < self.attrs.len()
            invariant
                i <= self.attrs.len(),
                forall|k: int| 0 <= k < i ==> self@.attrs[k].key != var@,
                var@ != reserved_key(),
            decreases self.attrs.len() - i,
        {
            if str_eq(self.attrs[i].key.as_str(), var) {
                proof {
                    assert(self@.attrs[i as int].key == var@);
                }
                return true;
            }
            i = i + 1;
        }
        false
    }

    /// Adds a binding holding a verbatim expression.  Fails with a collision
    /// error, leaving the state unchanged, when a binding of this name is
    /// already present.
    pub fn add_letvar_expr(&mut self, var: &str, val: &str) -> (r: Result<(), NixError>)
        ensures
            old(self)@.has_let_var(var@) ==> (r matches Err(NixError::LetVarSet(n)) && n@ == var@
                && *final(self) == *old(self)),
            !old(self)@.has_let_var(var@) ==> r is Ok && final(self)@ == (NixBuilderView {
                let_vars: old(self)@.let_vars.push(
                    LetVarView { name: var@, value: NixValueView::Expr(val@) },
                ),
                ..old(self)@
            }),
            old(self)@.wf() ==> final(self)@.wf(),
    {
        if self.has_let_var_exec(var) {
            return Err(NixError::LetVarSet(String::from_str(var)));
        }
        self.let_vars.push(
            LetVar { name: String::from_str(var), value: NixValue::Expr(String::from_str(val)) },
        );
        proof {
            assert(self@.let_vars =~= old(self)@.let_vars.push(
                LetVarView { name: var@, value: NixValueView::Expr(val@) },
            ));
            assert(self@.inputs =~= old(self)@.inputs);
            assert(self@.attrs =~= old(self)@.attrs);
        }
        Ok(())
    }

    /// Adds a binding holding a quoted string value.  Fails with a collision
    /// error, leaving the state unchanged, when a binding of this name is
    /// already present.
    pub fn add_letvar_string(&mut self, var: &str, val: &str) -> (r: Result<(), NixError>)
        ensures
            old(self)@.has_let_var(var@) ==> (r matches Err(NixError::LetVarSet(n)) && n@ == var@
                && *final(self) == *old(self)),
            !old(self)@.has_let_var(var@) ==> r is Ok && final(self)@ == (NixBuilderView {
                let_vars: old(self)@.let_vars.push(
                    LetVarView { name: var@, value: NixValueView::Str(val@) },
                ),
                ..old(self)@
            }),
            old(self)@.wf() ==> final(self)@.wf(),
    {
        if self.has_let_var_exec(var) {
            return Err(NixError::LetVarSet(String::from_str(var)));
        }
        self.let_vars.push(
            LetVar { name: String::from_str(var), value: NixValue::Str(String::from_str(val)) },
        );
        proof {
            assert(self@.let_vars =~= old(self)@.let_vars.push(
                LetVarView { name: var@, value: NixValueView::Str(val@) },
            ));
            assert(self@.inputs =~= old(self)@.inputs);
            assert(self@.attrs =~= old(self)@.attrs);
        }
        Ok(())
    }

    /// Adds an uncommented attribute holding a verbatim expression.  Fails
    /// with a collision error, leaving the state unchanged, when the key is
    /// reserved or already present.
    pub fn add_expr_attribute(&mut self, key: &str, attr: &str) -> (r: Result<(), NixError>)
        ensures
            old(self)@.attr_blocked(key@) ==> (r matches Err(NixError::AttrSet(k)) && k@ == key@
                && *final(self) == *old(self)),
            !old(self)@.attr_blocked(key@) ==> r is Ok && final(self)@ == (NixBuilderView {
                attrs: old(self)@.attrs.push(
                    AttrView { key: key@, value: NixValueView::Expr(attr@), comment: None },
                ),
                ..old(self)@
            }),
            old(self)@.wf() ==> final(self)@.wf(),
    {
        if self.is_attr_set(key) {
            return Err(NixError::AttrSet(String::from_str(key)));
        }
        self.attrs.push(
            AttrEntry {
                key: String::from_str(key),
                value: NixValue::Expr(String::from_str(attr)),
                comment: None,
            },
        );
        proof {
            assert(self@.attrs =~= old(self)@.attrs.push(
                AttrView { key: key@, value: NixValueView::Expr(attr@), comment: None },
            ));
            assert(self@.let_vars =~= old(self)@.let_vars);
            assert(self@.inputs =~= old(self)@.inputs);
        }
        Ok(())
    }

    /// Adds an attribute holding a verbatim expression, preceded by a comment
    /// line.  Fails with a collision error, leaving the state unchanged, when
    /// the key is reserved or already present.
    pub fn add_expr_attribute_comment(&mut self, key: &str, attr: &str, comment: &str) -> (r:
        Result<(), NixError>)
        ensures
            old(self)@.attr_blocked(key@) ==> (r matches Err(NixError::AttrSet(k)) && k@ == key@
                && *final(self) == *old(self)),
            !old(self)@.attr_blocked(key@) ==> r is Ok && final(self)@ == (NixBuilderView {
                attrs: old(self)@.attrs.push(
                    AttrView {
                        key: key@,
                        value: NixValueView::Expr(attr@),
                        comment: Some(comment@),
                    },
                ),
                ..old(self)@
            }),
            old(self)@.wf() ==> final(self)@.wf(),
    {
        if self.is_attr_set(key) {
            return Err(NixError::AttrSet(String::from_str(key)));
        }
        self.attrs.push(
            AttrEntry {
                key: String::from_str(key),
                value: NixValue::Expr(String::from_str(attr)),
                comment: Some(String::from_str(comment)),
            },
        );
        proof {
            assert(self@.attrs =~= old(self)@.attrs.push(
                AttrView { key: key@, value: NixValueView::Expr(attr@), comment: Some(comment@) },
            ));
            assert(self@.let_vars =~= old(self)@.let_vars);
            assert(self@.inputs =~= old(self)@.inputs);
        }
        Ok(())
    }

    /// Adds an uncommented attribute holding a quoted string value.  Fails
    /// with a collision error, leaving the state unchanged, when the key is
    /// reserved or already present.
    pub fn add_string_attribute(&mut self, key: &str, attr: &str) -> (r: Result<(), NixError>)
        ensures
            old(self)@.attr_blocked(key@) ==> (r matches Err(NixError::AttrSet(k)) && k@ == key@
                && *final(self) == *old(self)),
            !old(self)@.attr_blocked(key@) ==> r is Ok && final(self)@ == (NixBuilderView {
                attrs: old(self)@.attrs.push(
                    AttrView { key: key@, value: NixValueView::Str(attr@), comment: None },
                ),
                ..old(self)@
            }),
            old(self)@.wf() ==> final(self)@.wf(),
    {
        if self.is_attr_set(key) {
            return Err(NixError::AttrSet(String::from_str(key)));
        }
        self.attrs.push(
            AttrEntry {
                key: String::from_str(key),
                value: NixValue::Str(String::from_str(attr)),
                comment: None,
            },
        );
        proof {
            assert(self@.attrs =~= old(self)@.attrs.push(
                AttrView { key: key@, value: NixValueView::Str(attr@), comment: None },
            ));
            assert(self@.let_vars =~= old(self)@.let_vars);
            assert(self@.inputs =~= old(self)@.inputs);
        }
        Ok(())
    }

    /// Whether this package reference is already among the inputs.
    fn has_input(&self, pkg: &str) -> (r: bool)
        ensures
            r == self@.inputs.contains(pkg@),
    {
        let mut i: usize = 0;
        while i < self.build_inputs.len()
            invariant
                i <= self.build_inputs.len(),
                forall|k: int| 0 <= k < i ==> self@.inputs[k] != pkg@,
            decreases self.build_inputs.len() - i,
        {
            if str_eq(self.build_inputs[i].as_str(), pkg) {
                proof {
                    assert(self@.inputs[i as int] == pkg@);
                }
                return true;
            }
            i = i + 1;
        }
        proof {
            if self@.inputs.contains(pkg@) {
                let k = choose|k: int| 0 <= k < self@.inputs.len() && self@.inputs[k] == pkg@;
                assert(self@.inputs[k] != pkg@);
            }
        }
        false
    }

    /// Appends a package reference to the inputs unless an equal one is
    /// already present; a duplicate is a silent no-op.
    pub fn add_build_input(&mut self, pkg: &str)
        ensures
            final(self)@ == (NixBuilderView {
                inputs: add_input_spec(old(self)@.inputs, pkg@),
                ..old(self)@
            }),
            old(self)@.wf() ==> final(self)@.wf(),
    {
        if self.has_input(pkg) {
            return ;
        }
        self.build_inputs.push(String::from_str(pkg));
        proof {
            assert(self@.inputs =~= old(self)@.inputs.push(pkg@));
            assert(self@.let_vars =~= old(self)@.let_vars);
            assert(self@.attrs =~= old(self)@.attrs);
        }
    }

    /// Applies [`NixBuilder::add_build_input`] to each package reference in
    /// order.
    pub fn add_build_inputs(&mut self, pkgs: &Vec<String>)
        ensures
            final(self)@ == (NixBuilderView {
                inputs: add_inputs_spec(old(self)@.inputs, pkgs.deep_view()),
                ..old(self)@
            }),
            old(self)@.wf() ==> final(self)@.wf(),
    {
        let mut i: usize = 0;
        while i < pkgs.len()
            invariant
                i <= pkgs.len(),
                self@ == (NixBuilderView {
                    inputs: add_inputs_spec(old(self)@.inputs, pkgs.deep_view().take(i as int)),
                    ..old(self)@
                }),
                old(self)@.wf() ==> self@.wf(),
            decreases pkgs.len() - i,
        {
            self.add_build_input(pkgs[i].as_str());
            proof {
                assert(pkgs.deep_view().take(i + 1) =~= pkgs.deep_view().take(i as int).push(
                    pkgs.deep_view()[i as int],
                ));
                lemma_add_inputs_snoc(
                    old(self)@.inputs,
                    pkgs.deep_view().take(i as int),
                    pkgs.deep_view()[i as int],
                );
                assert(pkgs.deep_view()[i as int] == pkgs@[i as int]@);
            }
            i = i + 1;
        }
        proof {
            assert(pkgs.deep_view().take(pkgs.len() as int) =~= pkgs.deep_view());
        }
    }

    /// Renders the builder's state to descriptor text, exactly as
    /// [`render_text`] describes it.
    pub fn build(&self) -> (r: String)
        ensures
            r@ == render_text(self@),
    {
        let mut ret = String::from_str("{ pkgs ? import <nixpkgs> {} }:\n");
        if self.let_vars.len() > 0 {
            let opener = indentd("let", 2);
            ret.append(opener.as_str());
            ret.append("\n");
            let mut i: usize = 0;
            while i < self.let_vars.len()
                invariant
                    i <= self.let_vars.len(),
                    ret@ == header_text() + indent_text("let"@, 2) + nl() + let_var_lines(
                        self@.let_vars,
                        i as int,
                    ),
                decreases self.let_vars.len() - i,
            {
                let lv = &self.let_vars[i];
                let mut line = lv.name.clone();
                line.append(" = ");
                let vt = lv.value.to_text();
                line.append(vt.as_str());
                line.append(";");
                let il = indentd(line.as_str(), 4);
                ret.append(il.as_str());
                ret.append("\n");
                proof {
                    assert(line@ =~= self@.let_vars[i as int].name + " = "@
                        + self@.let_vars[i as int].value.text() + ";"@);
                    assert(ret@ =~= header_text() + indent_text("let"@, 2) + nl() + let_var_lines(
                        self@.let_vars,
                        i + 1,
                    ));
                }
                i = i + 1;
            }
            let closer = indentd("in", 2);
            ret.append(closer.as_str());
            ret.append("\n");
            proof {
                assert(ret@ =~= header_text() + let_block_text(self@.let_vars));
            }
        } else {
            proof {
                assert(self@.let_vars.len() == 0);
                assert(ret@ =~= header_text() + let_block_text(self@.let_vars));
            }
        }
        let shell = indentd("pkgs.mkShell ", 2);
        ret.append(shell.as_str());
        if self.rec {
            ret.append("rec ");
        }
        ret.append("{\n");
        proof {
            assert(ret@ =~= header_text() + let_block_text(self@.let_vars) + shell_open_text(
                self@.rec,
            ));
        }
        let arr = fmt_array(Some("pkgs"), true, &self.build_inputs);
        let mut line = String::from_str("buildInputs = ");
        line.append(arr.as_str());
        line.append(";");
        let il = indentd(line.as_str(), 4);
        ret.append(il.as_str());
        ret.append("\n");
        proof {
            assert(self.build_inputs.deep_view() =~= self@.inputs);
            assert(line@ =~= "buildInputs = "@ + fmt_array_text(Some("pkgs"@), true, self@.inputs)
                + ";"@);
            assert(ret@ =~= header_text() + let_block_text(self@.let_vars) + shell_open_text(
                self@.rec,
            ) + inputs_attr_text(self@.inputs));
        }
        let ghost prefix = header_text() + let_block_text(self@.let_vars) + shell_open_text(
            self@.rec,
        ) + inputs_attr_text(self@.inputs);
        let mut i: usize = 0;
        while i < self.attrs.len()
            invariant
                i <= self.attrs.len(),
                ret@ == prefix + attr_chunks(self@.attrs, i as int),
            decreases self.attrs.len() - i,
        {
            let a = &self.attrs[i];
            match &a.comment {
                Some(c) => {
                    let mut cline = String::from_str("# ");
                    cline.append(c.as_str());
                    let icl = indentd(cline.as_str(), 4);
                    ret.append(icl.as_str());
                    ret.append("\n");
                },
                None => {},
            }
            let mut aline = a.key.clone();
            aline.append(" = ");
            let vt = a.value.to_text();
            aline.append(vt.as_str());
            aline.append(";");
            let ial = indentd(aline.as_str(), 4);
            ret.append(ial.as_str());
            ret.append("\n");
            proof {
                assert(aline@ =~= self@.attrs[i as int].key + " = "@
                    + self@.attrs[i as int].value.text() + ";"@);
                assert(ret@ =~= prefix + attr_chunks(self@.attrs, i + 1));
            }
            i = i + 1;
        }
        let cl = indentd("}", 2);
        ret.append(cl.as_str());
        ret.append("\n");
        proof {
            assert(ret@ =~= render_text(self@));
        }
        ret
    }
}

} // verus!
