//! The CSS model and its renderer: declarations, selectors, rules,
//! media queries and rule sets, each with a spec-level rendering
//! function and an executable renderer proved against it.

use vstd::prelude::*;

verus! {

/// The value side of a CSS declaration: a bare token, or a function
/// call with ordered arguments.
#[derive(Debug, Clone, PartialEq, Eq)]
pub enum DeclarationValue {
    Basic(String),
    Function(String, Vec<String>),
}

/// A single CSS `property:value;` pair.
#[derive(Debug, Clone, PartialEq, Eq)]
pub struct Declaration {
    pub property: String,
    pub value: DeclarationValue,
}

/// Does the character sequence contain a space?
pub open spec fn has_space(s: Seq<char>) -> bool {
    exists|i: int| 0 <= i < s.len() && s[i] == ' '
}

/// The texts of `parts[i..]`, joined by `sep`.
pub open spec fn spec_join_from(parts: Seq<Seq<char>>, i: int, sep: Seq<char>) -> Seq<char>
    decreases parts.len() - i,
{
    if i < 0 || i >= parts.len() {
        Seq::empty()
    } else if i == parts.len() - 1 {
        parts[i]
    } else {
        parts[i] + sep + spec_join_from(parts, i + 1, sep)
    }
}

/// The texts of `parts`, joined by `sep`.
pub open spec fn spec_join(parts: Seq<Seq<char>>, sep: Seq<char>) -> Seq<char> {
    spec_join_from(parts, 0, sep)
}

/// The rendered text of a declaration value: a `Basic` value is quoted
/// exactly when it contains a space; a `Function` value is
/// `name(arg1,arg2,...)` with its arguments inserted verbatim.
pub open spec fn spec_render_value(v: DeclarationValue) -> Seq<char> {
    match v {
        DeclarationValue::Basic(s) => if has_space(s@) {
            "\""@ + s@ + "\""@
        } else {
            s@
        },
        DeclarationValue::Function(name, args) => name@ + "("@ + spec_join(
            args@.map_values(|a: String| a@),
            ","@,
        ) + ")"@,
    }
}

/// The rendered text of a declaration: `property:value;` with no
/// injected whitespace.
pub open spec fn spec_render_declaration(d: Declaration) -> Seq<char> {
    d.property@ + ":"@ + spec_render_value(d.value) + ";"@
}

/// An operator joining two selector operands to express a structural
/// relationship between the elements they match.
#[derive(Debug, Clone, PartialEq, Eq)]
pub enum Combinator {
    Descendant,
    Child,
    AdjacentSibling,
    GeneralSibling,
}

/// A predicate describing which elements a rule applies to, as a
/// recursive algebra over tags, classes, ids, attributes, pseudo
/// classes and elements, combinators, compound chains and
/// comma-separated groups.
#[derive(Debug, PartialEq, Eq)]
pub enum Selector {
    Universal,
    Tag(String),
    Class(String),
    Id(String),
    Combinator(Box<Selector>, Combinator, Box<Selector>),
    PseudoClass(Box<Selector>, String),
    PseudoElement(Box<Selector>, String),
    Attribute(String),
    AttributeValue(String, String),
    AttributeContains(String, String),
    Chain(Vec<Selector>),
    Group(Vec<Selector>),
}

/// The symbol placed between the two operands of a combinator, with no
/// surrounding whitespace. A descendant relationship adds no symbol at
/// all: adjacency alone encodes it.
pub open spec fn spec_render_combinator(c: Combinator) -> Seq<char> {
    match c {
        Combinator::Descendant => Seq::empty(),
        Combinator::Child => ">"@,
        Combinator::AdjacentSibling => "+"@,
        Combinator::GeneralSibling => "~"@,
    }
}

/// The rendered texts of `items[i..]`, joined by `sep`.
pub open spec fn spec_render_selectors_from(items: Seq<Selector>, i: int, sep: Seq<char>) -> Seq<char>
    decreases items, items.len() - i,
{
    if i < 0 || i >= items.len() {
        Seq::empty()
    } else if i == items.len() - 1 {
        spec_render_selector(items[i])
    } else {
        spec_render_selector(items[i]) + sep + spec_render_selectors_from(items, i + 1, sep)
    }
}

/// The rendered text of a selector: one case per variant, pure
/// recursive descent, with no reordering, validation or escaping.
pub open spec fn spec_render_selector(s: Selector) -> Seq<char>
    decreases s, 0int,
{
    match s {
        Selector::Universal => "*"@,
        Selector::Tag(name) => name@,
        Selector::Class(name) => "."@ + name@,
        Selector::Id(name) => "#"@ + name@,
        Selector::Combinator(base, op, relative) => spec_render_selector(*base)
            + spec_render_combinator(op) + spec_render_selector(*relative),
        Selector::PseudoClass(base, name) => spec_render_selector(*base) + ":"@ + name@,
        Selector::PseudoElement(base, name) => spec_render_selector(*base) + "::"@ + name@,
        Selector::Attribute(name) => "["@ + name@ + "]"@,
        Selector::AttributeValue(name, value) => "["@ + name@ + "=\""@ + value@ + "\"]"@,
        Selector::AttributeContains(name, value) => "["@ + name@ + "~=\""@ + value@ + "\"]"@,
        Selector::Chain(items) => spec_render_selectors_from(items@, 0, Seq::empty()),
        Selector::Group(items) => spec_render_selectors_from(items@, 0, ","@),
    }
}

/// The selectors of `items[i..]`, each rendered, joined by `sep`.
fn render_selectors_from(items: &Vec<Selector>, i: usize, sep: &str) -> (r: String)
    ensures
        r@ == spec_render_selectors_from(items@, i as int, sep@),
    decreases items@, items@.len() - i,
{
    if i >= items.len() {
        String::new()
    } else {
        let mut out = items[i].render();
        if i + 1 < items.len() {
            out.append(sep);
            out.append(render_selectors_from(items, i + 1, sep).as_str());
        }
        out
    }
}

impl Selector {
    /// Render this selector to its exact textual form.
    pub fn render(&self) -> (r: String)
        ensures
            r@ == spec_render_selector(*self),
        decreases *self, 0int,
    {
        match self {
            Selector::Universal => String::from_str("*"),
            Selector::Tag(name) => name.clone(),
            Selector::Class(name) => {
                let mut out = String::from_str(".");
                out.append(name.as_str());
                out
            },
            Selector::Id(name) => {
                let mut out = String::from_str("#");
                out.append(name.as_str());
                out
            },
            Selector::Combinator(base, op, relative) => {
                let sym: &str = match op {
                    Combinator::Descendant => "",
                    Combinator::Child => ">",
                    Combinator::AdjacentSibling => "+",
                    Combinator::GeneralSibling => "~",
                };
                proof {
                    reveal_strlit("");
                    assert(sym@ =~= spec_render_combinator(*op));
                }
                let mut out = base.render();
                out.append(sym);
                out.append(relative.render().as_str());
                out
            },
            Selector::PseudoClass(base, name) => {
                let mut out = base.render();
                out.append(":");
                out.append(name.as_str());
                out
            },
            Selector::PseudoElement(base, name) => {
                let mut out = base.render();
                out.append("::");
                out.append(name.as_str());
                out
            },
            Selector::Attribute(name) => {
                let mut out = String::from_str("[");
                out.append(name.as_str());
                out.append("]");
                out
            },
            Selector::AttributeValue(name, value) => {
                let mut out = String::from_str("[");
                out.append(name.as_str());
                out.append("=\"");
                out.append(value.as_str());
                out.append("\"]");
                out
            },
            Selector::AttributeContains(name, value) => {
                let mut out = String::from_str("[");
                out.append(name.as_str());
                out.append("~=\"");
                out.append(value.as_str());
                out.append("\"]");
                out
            },
            Selector::Chain(items) => {
                proof {
                    reveal_strlit("");
                    assert(""@ =~= Seq::<char>::empty());
                }
                render_selectors_from(items, 0, "")
            },
            Selector::Group(items) => render_selectors_from(items, 0, ","),
        }
    }
}

/// Whether `s` contains a space character.
fn contains_space(s: &str) -> (r: bool)
    ensures
        r == has_space(s@),
{
    let n = s.unicode_len();
    for i in 0..n
        invariant
            n == s@.len(),
            forall|j: int| 0 <= j < i ==> s@[j] != ' ',
    {
        if s.get_char(i) == ' ' {
            return true;
        }
    }
    false
}

/// The arguments of `args[i..]`, joined by commas, appended to `out`.
fn append_args_from(out: &mut String, args: &Vec<String>, i: usize)
    requires
        i <= args@.len(),
    ensures
        final(out)@ == old(out)@ + spec_join_from(args@.map_values(|a: String| a@), i as int, ","@),
    decreases args@.len() - i,
{
    if i < args.len() {
        out.append(args[i].as_str());
        if i + 1 < args.len() {
            out.append(",");
            append_args_from(out, args, i + 1);
        }
    }
}

impl DeclarationValue {
    /// Render this value to its exact textual form.
    pub fn render(&self) -> (r: String)
        ensures
            r@ == spec_render_value(*self),
    {
        match self {
            DeclarationValue::Basic(s) => {
                if contains_space(s.as_str()) {
                    let mut out = String::new();
                    out.append("\"");
                    out.append(s.as_str());
                    out.append("\"");
                    out
                } else {
                    s.clone()
                }
            },
            DeclarationValue::Function(name, args) => {
                let mut out = name.clone();
                out.append("(");
                append_args_from(&mut out, args, 0);
                out.append(")");
                out
            },
        }
    }
}

impl Declaration {
    /// Build a declaration from its property name and value.
    pub fn new(property: String, value: DeclarationValue) -> (r: Self)
        ensures
            r.property == property,
            r.value == value,
    {
        Self { property, value }
    }

    /// Render this declaration as `property:value;`.
    pub fn render(&self) -> (r: String)
        ensures
            r@ == spec_render_declaration(*self),
    {
        let mut out = self.property.clone();
        out.append(":");
        out.append(self.value.render().as_str());
        out.append(";");
        out
    }
}

/// A selector plus its declarations, with optional preprocessor-style
/// nested rules that are hoisted into flat sibling blocks at render
/// time.
#[derive(Debug, PartialEq, Eq)]
pub struct Rule {
    pub selector: Selector,
    pub declarations: Vec<Declaration>,
    pub sub_rules: Vec<Rule>,
}

/// The declarations of `decls[i..]`, rendered and concatenated with no
/// separators.
pub open spec fn spec_render_declarations_from(decls: Seq<Declaration>, i: int) -> Seq<char>
    decreases decls.len() - i,
{
    if i < 0 || i >= decls.len() {
        Seq::empty()
    } else {
        spec_render_declaration(decls[i]) + spec_render_declarations_from(decls, i + 1)
    }
}

/// One flat CSS block: `selector{declarations}`.
pub open spec fn spec_render_block(sel: Seq<char>, decls: Seq<Declaration>) -> Seq<char> {
    sel + "{"@ + spec_render_declarations_from(decls, 0) + "}"@
}

/// The blocks of `rules[i..]`, each flattened under `prefix`, in
/// preorder (depth first, left to right), concatenated.
pub open spec fn spec_render_rules_from(prefix: Seq<char>, rules: Seq<Rule>, i: int) -> Seq<char>
    decreases rules, rules.len() - i,
{
    if i < 0 || i >= rules.len() {
        Seq::empty()
    } else {
        spec_render_nested_rule(prefix, rules[i]) + spec_render_rules_from(prefix, rules, i + 1)
    }
}

/// The blocks of one nested rule: its own block, whose effective
/// selector is `prefix` followed by the rule's selector, then the
/// blocks of its sub-rules under the child-combinator-extended prefix.
pub open spec fn spec_render_nested_rule(prefix: Seq<char>, r: Rule) -> Seq<char>
    decreases r, 0int,
{
    spec_render_block(prefix + spec_render_selector(r.selector), r.declarations@)
        + spec_render_rules_from(
        prefix + spec_render_selector(r.selector) + ">"@,
        r.sub_rules@,
        0,
    )
}

/// The rendered text of a rule: its own `selector{declarations}` block
/// first, then one block for every nested sub-rule in preorder, each
/// with the ancestor chain joined by the child combinator as its
/// selector, all concatenated with no separators.
pub open spec fn spec_render_rule(r: Rule) -> Seq<char> {
    spec_render_block(spec_render_selector(r.selector), r.declarations@)
        + spec_render_rules_from(spec_render_selector(r.selector) + ">"@, r.sub_rules@, 0)
}

/// The declarations of `decls[i..]`, rendered back to back.
fn render_declarations_from(decls: &Vec<Declaration>, i: usize) -> (r: String)
    ensures
        r@ == spec_render_declarations_from(decls@, i as int),
    decreases decls@.len() - i,
{
    if i >= decls.len() {
        String::new()
    } else {
        let mut out = decls[i].render();
        out.append(render_declarations_from(decls, i + 1).as_str());
        out
    }
}

/// One flat block made of an already-rendered selector and a list of
/// declarations.
fn render_block(sel: String, decls: &Vec<Declaration>) -> (r: String)
    ensures
        r@ == spec_render_block(sel@, decls@),
{
    let mut out = sel;
    out.append("{");
    out.append(render_declarations_from(decls, 0).as_str());
    out.append("}");
    out
}

/// The flattened blocks of `rules[i..]` under `prefix`.
fn render_rules_from(prefix: &str, rules: &Vec<Rule>, i: usize) -> (r: String)
    ensures
        r@ == spec_render_rules_from(prefix@, rules@, i as int),
    decreases rules@, rules@.len() - i,
{
    if i >= rules.len() {
        String::new()
    } else {
        let mut out = render_nested_rule(prefix, &rules[i]);
        out.append(render_rules_from(prefix, rules, i + 1).as_str());
        out
    }
}

/// The flattened blocks of one rule under `prefix`.
fn render_nested_rule(prefix: &str, r: &Rule) -> (res: String)
    ensures
        res@ == spec_render_nested_rule(prefix@, *r),
    decreases *r, 0int,
{
    let mut sel = String::from_str(prefix);
    sel.append(r.selector.render().as_str());
    let mut child_prefix = sel.clone();
    child_prefix.append(">");
    let mut out = render_block(sel, &r.declarations);
    out.append(render_rules_from(child_prefix.as_str(), &r.sub_rules, 0).as_str());
    out
}

impl Rule {
    /// Build a rule from its selector, declarations and nested rules.
    pub fn new(selector: Selector, declarations: Vec<Declaration>, sub_rules: Vec<Rule>) -> (r:
        Self)
        ensures
            r.selector == selector,
            r.declarations == declarations,
            r.sub_rules == sub_rules,
    {
        Self { selector, declarations, sub_rules }
    }

    /// Render this rule as one or more flat `selector{declarations}`
    /// blocks, nested sub-rules hoisted in preorder.
    pub fn render(&self) -> (r: String)
        ensures
            r@ == spec_render_rule(*self),
    {
        let sel = self.selector.render();
        let mut child_prefix = sel.clone();
        child_prefix.append(">");
        let mut out = render_block(sel, &self.declarations);
        out.append(render_rules_from(child_prefix.as_str(), &self.sub_rules, 0).as_str());
        out
    }
}

/// The prefix a media query may place before its media type.
#[derive(Debug, Clone, PartialEq, Eq)]
pub enum MediaConstraint {
    Unconstrained,
    Not,
    Only,
}

impl Default for MediaConstraint {
    /// The default constraint adds no prefix at all.
    fn default() -> (r: Self)
        ensures
            r == MediaConstraint::Unconstrained,
    {
        MediaConstraint::Unconstrained
    }
}

/// One media feature test, rendered `(property:value)`.
#[derive(Debug, Clone, PartialEq, Eq)]
pub struct MediaFeature {
    pub property: String,
    pub value: String,
}

/// A self-contained boolean composition of one or two media features.
#[derive(Debug, Clone, PartialEq, Eq)]
pub enum MediaCondition {
    Lone(MediaFeature),
    And(MediaFeature, MediaFeature),
    Or(MediaFeature, MediaFeature),
    Not(MediaFeature, MediaFeature),
}

/// The `@media` conditional-activation predicate of a rule set.
#[derive(Debug, Clone, PartialEq, Eq)]
pub struct MediaQuery {
    pub media_type: String,
    pub constraint: MediaConstraint,
    pub features: Vec<MediaCondition>,
}

/// A top-level grouping of rules, optionally scoped by a media query,
/// possibly containing nested rule sets. Nesting is purely a grouping
/// convenience: a sub-set renders itself independently and is never
/// re-wrapped by its parent.
#[derive(Debug, PartialEq, Eq)]
pub struct RuleSet {
    pub media_query: Option<MediaQuery>,
    pub rules: Vec<Rule>,
    pub sub_sets: Vec<RuleSet>,
}

/// The rendered text of a media feature: `(property:value)`.
pub open spec fn spec_render_feature(f: MediaFeature) -> Seq<char> {
    "("@ + f.property@ + ":"@ + f.value@ + ")"@
}

/// The rendered text of a media condition: a lone feature stands by
/// itself; a pair is joined by ` and `, ` or ` or ` not `.
pub open spec fn spec_render_condition(c: MediaCondition) -> Seq<char> {
    match c {
        MediaCondition::Lone(f) => spec_render_feature(f),
        MediaCondition::And(f1, f2) => spec_render_feature(f1) + " and "@ + spec_render_feature(
            f2,
        ),
        MediaCondition::Or(f1, f2) => spec_render_feature(f1) + " or "@ + spec_render_feature(f2),
        MediaCondition::Not(f1, f2) => spec_render_feature(f1) + " not "@ + spec_render_feature(
            f2,
        ),
    }
}

/// The conditions of `feats[i..]`, rendered and concatenated with no
/// connective between successive list entries.
pub open spec fn spec_render_conditions_from(feats: Seq<MediaCondition>, i: int) -> Seq<char>
    decreases feats.len() - i,
{
    if i < 0 || i >= feats.len() {
        Seq::empty()
    } else {
        spec_render_condition(feats[i]) + spec_render_conditions_from(feats, i + 1)
    }
}

/// The prefix a constraint places before the media type.
pub open spec fn spec_render_constraint(c: MediaConstraint) -> Seq<char> {
    match c {
        MediaConstraint::Unconstrained => Seq::empty(),
        MediaConstraint::Only => "only "@,
        MediaConstraint::Not => "not "@,
    }
}

/// The rendered text of a media query up to (not including) the brace
/// that opens its body: `@media`, the constraint prefix, the media
/// type, and ` and ` followed by the features when there are any.
pub open spec fn spec_render_media_query(q: MediaQuery) -> Seq<char> {
    "@media "@ + spec_render_constraint(q.constraint) + q.media_type@ + (if q.features.len()
        == 0 {
        Seq::<char>::empty()
    } else {
        " and "@ + spec_render_conditions_from(q.features@, 0)
    })
}

/// The rules of `rules[i..]`, each rendered flat, concatenated.
pub open spec fn spec_render_rule_list_from(rules: Seq<Rule>, i: int) -> Seq<char>
    decreases rules.len() - i,
{
    if i < 0 || i >= rules.len() {
        Seq::empty()
    } else {
        spec_render_rule(rules[i]) + spec_render_rule_list_from(rules, i + 1)
    }
}

/// The sets of `sets[i..]`, each rendered independently, concatenated.
pub open spec fn spec_render_rule_sets_from(sets: Seq<RuleSet>, i: int) -> Seq<char>
    decreases sets, sets.len() - i,
{
    if i < 0 || i >= sets.len() {
        Seq::empty()
    } else {
        spec_render_rule_set(sets[i]) + spec_render_rule_sets_from(sets, i + 1)
    }
}

/// The rendered text of a rule set: its rules then its sub-sets, in
/// order, with no separators; wrapped in an `@media` block exactly
/// when the set carries its own media query.
pub open spec fn spec_render_rule_set(rs: RuleSet) -> Seq<char>
    decreases rs, 0int,
{
    let body = spec_render_rule_list_from(rs.rules@, 0) + spec_render_rule_sets_from(
        rs.sub_sets@,
        0,
    );
    match rs.media_query {
        Option::None => body,
        Option::Some(q) => spec_render_media_query(q) + "{"@ + body + "}"@,
    }
}

impl MediaFeature {
    /// Build a feature from its property name and value.
    pub fn new(property: String, value: String) -> (r: Self)
        ensures
            r.property == property,
            r.value == value,
    {
        Self { property, value }
    }

    /// Render this feature as `(property:value)`.
    pub fn render(&self) -> (r: String)
        ensures
            r@ == spec_render_feature(*self),
    {
        let mut out = String::from_str("(");
        out.append(self.property.as_str());
        out.append(":");
        out.append(self.value.as_str());
        out.append(")");
        out
    }
}

impl MediaCondition {
    /// Render this condition as a self-contained expression.
    pub fn render(&self) -> (r: String)
        ensures
            r@ == spec_render_condition(*self),
    {
        match self {
            MediaCondition::Lone(f) => f.render(),
            MediaCondition::And(f1, f2) => {
                let mut out = f1.render();
                out.append(" and ");
                out.append(f2.render().as_str());
                out
            },
            MediaCondition::Or(f1, f2) => {
                let mut out = f1.render();
                out.append(" or ");
                out.append(f2.render().as_str());
                out
            },
            MediaCondition::Not(f1, f2) => {
                let mut out = f1.render();
                out.append(" not ");
                out.append(f2.render().as_str());
                out
            },
        }
    }
}

/// The conditions of `feats[i..]`, rendered back to back.
fn render_conditions_from(feats: &Vec<MediaCondition>, i: usize) -> (r: String)
    ensures
        r@ == spec_render_conditions_from(feats@, i as int),
    decreases feats@.len() - i,
{
    if i >= feats.len() {
        String::new()
    } else {
        let mut out = feats[i].render();
        out.append(render_conditions_from(feats, i + 1).as_str());
        out
    }
}

impl MediaQuery {
    /// Build a query from its constraint, media type and features.
    pub fn new(constraint: MediaConstraint, media_type: String, features: Vec<MediaCondition>) -> (
        r: Self)
        ensures
            r.media_type == media_type,
            r.constraint == constraint,
            r.features == features,
    {
        Self { media_type, constraint, features }
    }

    /// Render this query's `@media` head, up to the opening brace.
    pub fn render(&self) -> (r: String)
        ensures
            r@ == spec_render_media_query(*self),
    {
        let mut out = String::from_str("@media ");
        let cs: &str = match &self.constraint {
            MediaConstraint::Unconstrained => "",
            MediaConstraint::Only => "only ",
            MediaConstraint::Not => "not ",
        };
        proof {
            reveal_strlit("");
            assert(cs@ =~= spec_render_constraint(self.constraint));
        }
        out.append(cs);
        out.append(self.media_type.as_str());
        if self.features.len() > 0 {
            out.append(" and ");
            out.append(render_conditions_from(&self.features, 0).as_str());
        } else {
            proof {
                assert(out@ + Seq::<char>::empty() =~= out@);
            }
        }
        out
    }
}

/// The rules of `rules[i..]`, rendered back to back.
fn render_rule_list_from(rules: &Vec<Rule>, i: usize) -> (r: String)
    ensures
        r@ == spec_render_rule_list_from(rules@, i as int),
    decreases rules@.len() - i,
{
    if i >= rules.len() {
        String::new()
    } else {
        let mut out = rules[i].render();
        out.append(render_rule_list_from(rules, i + 1).as_str());
        out
    }
}

/// The sets of `sets[i..]`, rendered back to back.
fn render_rule_sets_from(sets: &Vec<RuleSet>, i: usize) -> (r: String)
    ensures
        r@ == spec_render_rule_sets_from(sets@, i as int),
    decreases sets@, sets@.len() - i,
{
    if i >= sets.len() {
        String::new()
    } else {
        let mut out = sets[i].render();
        out.append(render_rule_sets_from(sets, i + 1).as_str());
        out
    }
}

impl RuleSet {
    /// Build a rule set from its rules, sub-sets and optional query.
    pub fn new(rules: Vec<Rule>, sub_sets: Vec<RuleSet>, media_query: Option<MediaQuery>) -> (r:
        Self)
        ensures
            r.media_query == media_query,
            r.rules == rules,
            r.sub_sets == sub_sets,
    {
        Self { media_query, rules, sub_sets }
    }

    /// Render this rule set: its rules then its sub-sets, wrapped in an
    /// `@media` block exactly when the set carries its own query.
    pub fn render(&self) -> (r: String)
        ensures
            r@ == spec_render_rule_set(*self),
        decreases *self, 0int,
    {
        let mut body = render_rule_list_from(&self.rules, 0);
        body.append(render_rule_sets_from(&self.sub_sets, 0).as_str());
        match &self.media_query {
            Option::None => body,
            Option::Some(q) => {
                let mut out = q.render();
                out.append("{");
                out.append(body.as_str());
                out.append("}");
                out
            },
        }
    }
}

/// Law: a declaration whose `Basic` value is free of spaces renders
/// unquoted as `property:value;`; one whose value contains a space
/// wraps the value in double quotes.
pub proof fn lemma_render_declaration_basic(d: Declaration, s: String)
    requires
        d.value == DeclarationValue::Basic(s),
    ensures
        !has_space(s@) ==> spec_render_declaration(d) == d.property@ + ":"@ + s@ + ";"@,
        has_space(s@) ==> spec_render_declaration(d) == d.property@ + ":"@ + "\""@ + s@ + "\""@
            + ";"@,
{
    if has_space(s@) {
        assert(d.property@ + ":"@ + ("\""@ + s@ + "\""@) + ";"@ =~= d.property@ + ":"@ + "\""@
            + s@ + "\""@ + ";"@);
    }
}

/// Law: a three-member group renders as its members' renderings joined
/// by commas.
pub proof fn lemma_render_group_three(items: Vec<Selector>)
    requires
        items@.len() == 3,
    ensures
        spec_render_selector(Selector::Group(items)) == spec_render_selector(items@[0]) + ","@
            + spec_render_selector(items@[1]) + ","@ + spec_render_selector(items@[2]),
{
    reveal_with_fuel(spec_render_selectors_from, 4);
    assert(spec_render_selectors_from(items@, 2, ","@) == spec_render_selector(items@[2]));
    assert(spec_render_selectors_from(items@, 1, ","@) == spec_render_selector(items@[1]) + ","@
        + spec_render_selector(items@[2]));
    assert(spec_render_selectors_from(items@, 0, ","@) == spec_render_selector(items@[0]) + ","@
        + spec_render_selectors_from(items@, 1, ","@));
    assert(spec_render_selector(items@[0]) + ","@ + (spec_render_selector(items@[1]) + ","@
        + spec_render_selector(items@[2])) =~= spec_render_selector(items@[0]) + ","@
        + spec_render_selector(items@[1]) + ","@ + spec_render_selector(items@[2]));
}

/// Law: a three-member chain renders as its members' renderings
/// concatenated with no separators.
pub proof fn lemma_render_chain_three(items: Vec<Selector>)
    requires
        items@.len() == 3,
    ensures
        spec_render_selector(Selector::Chain(items)) == spec_render_selector(items@[0])
            + spec_render_selector(items@[1]) + spec_render_selector(items@[2]),
{
    reveal_with_fuel(spec_render_selectors_from, 4);
    assert(spec_render_selectors_from(items@, 2, Seq::empty()) == spec_render_selector(
        items@[2],
    ));
    assert(spec_render_selectors_from(items@, 1, Seq::empty()) == spec_render_selector(items@[1])
        + Seq::<char>::empty() + spec_render_selector(items@[2]));
    assert(spec_render_selectors_from(items@, 0, Seq::empty()) == spec_render_selector(items@[0])
        + Seq::<char>::empty() + spec_render_selectors_from(items@, 1, Seq::empty()));
    assert(spec_render_selector(items@[0]) + Seq::<char>::empty() + (spec_render_selector(
        items@[1],
    ) + Seq::<char>::empty() + spec_render_selector(items@[2])) =~= spec_render_selector(
        items@[0],
    ) + spec_render_selector(items@[1]) + spec_render_selector(items@[2]));
}

/// Law: a combinator introduces no surrounding whitespace: the result
/// is the left operand, the bare symbol, and the right operand,
/// directly adjacent; in particular the child combinator yields
/// `left>right`.
pub proof fn lemma_render_combinator_tight(a: Box<Selector>, op: Combinator, b: Box<Selector>)
    ensures
        spec_render_selector(Selector::Combinator(a, op, b)) == spec_render_selector(*a)
            + spec_render_combinator(op) + spec_render_selector(*b),
        op == Combinator::Child ==> spec_render_selector(Selector::Combinator(a, op, b))
            == spec_render_selector(*a) + ">"@ + spec_render_selector(*b),
{
}

/// Law: a rule with one sub-rule holding one sub-sub-rule renders as
/// exactly three flat blocks, their selectors the ancestor chains
/// joined by the child combinator, in preorder.
pub proof fn lemma_render_rule_single_chain(r: Rule, r1: Rule, r2: Rule)
    requires
        r.sub_rules@ == seq![r1],
        r1.sub_rules@ == seq![r2],
        r2.sub_rules@.len() == 0,
    ensures
        spec_render_rule(r) == spec_render_block(
            spec_render_selector(r.selector),
            r.declarations@,
        ) + spec_render_block(
            spec_render_selector(r.selector) + ">"@ + spec_render_selector(r1.selector),
            r1.declarations@,
        ) + spec_render_block(
            spec_render_selector(r.selector) + ">"@ + spec_render_selector(r1.selector) + ">"@
                + spec_render_selector(r2.selector),
            r2.declarations@,
        ),
{
    let sel0 = spec_render_selector(r.selector);
    let sel1 = spec_render_selector(r1.selector);
    let block0 = spec_render_block(sel0, r.declarations@);
    let block1 = spec_render_block(sel0 + ">"@ + sel1, r1.declarations@);
    let block2 = spec_render_block(
        sel0 + ">"@ + sel1 + ">"@ + spec_render_selector(r2.selector),
        r2.declarations@,
    );
    reveal_with_fuel(spec_render_rules_from, 3);
    reveal_with_fuel(spec_render_nested_rule, 3);
    assert(spec_render_nested_rule(sel0 + ">"@, r1) == spec_render_block(
        sel0 + ">"@ + sel1,
        r1.declarations@,
    ) + spec_render_rules_from(sel0 + ">"@ + sel1 + ">"@, r1.sub_rules@, 0));
    assert(spec_render_nested_rule(sel0 + ">"@ + sel1 + ">"@, r2) == spec_render_block(
        sel0 + ">"@ + sel1 + ">"@ + spec_render_selector(r2.selector),
        r2.declarations@,
    ) + spec_render_rules_from(
        sel0 + ">"@ + sel1 + ">"@ + spec_render_selector(r2.selector) + ">"@,
        r2.sub_rules@,
        0,
    ));
    assert(block0 + (block1 + (block2 + Seq::<char>::empty() + Seq::<char>::empty())) =~= block0
        + block1 + block2);
}

/// Law: a rule set without a media query renders as its rules'
/// renderings followed by its sub-sets' renderings, with no wrapper
/// and no separators.
pub proof fn lemma_render_rule_set_plain(rs: RuleSet)
    requires
        rs.media_query is None,
    ensures
        spec_render_rule_set(rs) == spec_render_rule_list_from(rs.rules@, 0)
            + spec_render_rule_sets_from(rs.sub_sets@, 0),
{
}

/// Law: a sub-set lacking its own media query contributes its body
/// inline, with no re-wrapping and no separating marker between the
/// parent's rules and its own.
pub proof fn lemma_render_sub_set_inline(parent: RuleSet, child: RuleSet)
    requires
        parent.media_query is None,
        parent.sub_sets@ == seq![child],
        child.media_query is None,
    ensures
        spec_render_rule_set(parent) == spec_render_rule_list_from(parent.rules@, 0)
            + spec_render_rule_list_from(child.rules@, 0) + spec_render_rule_sets_from(
            child.sub_sets@,
            0,
        ),
{
    reveal_with_fuel(spec_render_rule_sets_from, 2);
    assert(spec_render_rule_sets_from(parent.sub_sets@, 0) == spec_render_rule_set(child)
        + spec_render_rule_sets_from(parent.sub_sets@, 1));
    assert(spec_render_rule_list_from(parent.rules@, 0) + (spec_render_rule_list_from(
        child.rules@,
        0,
    ) + spec_render_rule_sets_from(child.sub_sets@, 0) + Seq::<char>::empty())
        =~= spec_render_rule_list_from(parent.rules@, 0) + spec_render_rule_list_from(
        child.rules@,
        0,
    ) + spec_render_rule_sets_from(child.sub_sets@, 0));
}

/// Law: rendering a rule set is referentially transparent: the result
/// text is a function of the value alone, so rendering the same value
/// twice yields identical output.
pub proof fn lemma_render_rule_set_deterministic(a: RuleSet, b: RuleSet)
    requires
        a == b,
    ensures
        spec_render_rule_set(a) == spec_render_rule_set(b),
{
}

} // verus!
