//! Merging an imported program into the program that imports it.

use vstd::prelude::*;
use vstd::string::StringExecFns;
use crate::grammar::ast::{
    CallableDefinition, CallableDefinitionView, Constant, ConstantView, EnumDefinition, EnumDefinitionView,
    FieldDefinitionView, Program, ProgramView, RangeDefinition, RangeDefinitionView, StructDefinition,
    StructDefinitionView,
};
use crate::views::{append_deep, lemma_skip_all, lemma_skip_step};

verus! {

/// The name `name` inside the namespace `namespace`.
pub open spec fn qualified(namespace: Seq<char>, name: Seq<char>) -> Seq<char> {
    namespace + seq![':'] + name
}

/// The constant with its name inside the namespace.
pub open spec fn qualified_constant(namespace: Seq<char>, c: ConstantView) -> ConstantView {
    ConstantView {
        field: FieldDefinitionView { name: qualified(namespace, c.field.name), typename: c.field.typename },
        value: c.value,
    }
}

/// The enumeration with its name inside the namespace.
pub open spec fn qualified_enum(namespace: Seq<char>, e: EnumDefinitionView) -> EnumDefinitionView {
    EnumDefinitionView { name: qualified(namespace, e.name), base: e.base, items: e.items }
}

/// The struct with its name inside the namespace.
pub open spec fn qualified_struct(namespace: Seq<char>, s: StructDefinitionView) -> StructDefinitionView {
    StructDefinitionView { name: qualified(namespace, s.name), fields: s.fields }
}

/// The range with its name inside the namespace.
pub open spec fn qualified_range(namespace: Seq<char>, r: RangeDefinitionView) -> RangeDefinitionView {
    RangeDefinitionView { name: qualified(namespace, r.name), base: r.base, expression: r.expression }
}

/// The callable with its name inside the namespace.
pub open spec fn qualified_callable(namespace: Seq<char>, c: CallableDefinitionView) -> CallableDefinitionView {
    CallableDefinitionView {
        name: qualified(namespace, c.name),
        call_type: c.call_type,
        parameters: c.parameters,
        return_type: c.return_type,
        statements: c.statements,
        attributes: c.attributes,
    }
}

/// The program with the name of every constant, enum, struct, range and
/// callable put inside the namespace. Imports and the entry block stay.
pub open spec fn namespaced(p: ProgramView, namespace: Seq<char>) -> ProgramView {
    ProgramView {
        imports: p.imports,
        constants: Seq::new(p.constants.len(), |i: int| qualified_constant(namespace, p.constants[i])),
        enums: Seq::new(p.enums.len(), |i: int| qualified_enum(namespace, p.enums[i])),
        structs: Seq::new(p.structs.len(), |i: int| qualified_struct(namespace, p.structs[i])),
        ranges: Seq::new(p.ranges.len(), |i: int| qualified_range(namespace, p.ranges[i])),
        callables: Seq::new(p.callables.len(), |i: int| qualified_callable(namespace, p.callables[i])),
        main: p.main,
    }
}

/// The program `a` with the program `b` merged into it: the definitions of
/// `b`, inside the namespace where one is given, stand behind those of
/// `a`. The entry block is that of `a` where it has one, else that of `b`.
pub open spec fn combined(a: ProgramView, b: ProgramView, namespace: Option<Seq<char>>) -> ProgramView {
    let b = match namespace {
        Some(ns) => namespaced(b, ns),
        None => b,
    };
    ProgramView {
        imports: a.imports + b.imports,
        constants: a.constants + b.constants,
        enums: a.enums + b.enums,
        structs: a.structs + b.structs,
        ranges: a.ranges + b.ranges,
        callables: a.callables + b.callables,
        main: if a.main is Some {
            a.main
        } else {
            b.main
        },
    }
}

/// The program without its imports.
pub open spec fn without_imports(p: ProgramView) -> ProgramView {
    ProgramView {
        imports: Seq::empty(),
        constants: p.constants,
        enums: p.enums,
        structs: p.structs,
        ranges: p.ranges,
        callables: p.callables,
        main: p.main,
    }
}

/// The program `root` with the imported programs merged into it one after
/// the other, in the order of the imports; the imports of a program are
/// dropped once a program is merged into it.
pub open spec fn merged(root: ProgramView, imports: Seq<(ProgramView, Option<Seq<char>>)>) -> ProgramView
    decreases imports.len(),
{
    if imports.len() == 0 {
        root
    } else {
        merged(without_imports(combined(root, imports[0].0, imports[0].1)), imports.drop_first())
    }
}

/// A program's own entry block survives every merge.
pub proof fn lemma_own_main_is_kept(root: ProgramView, imports: Seq<(ProgramView, Option<Seq<char>>)>)
    requires
        root.main is Some,
    ensures
        merged(root, imports).main == root.main,
    decreases imports.len(),
{
    if imports.len() > 0 {
        lemma_own_main_is_kept(without_imports(combined(root, imports[0].0, imports[0].1)), imports.drop_first());
    }
}

/// Merging keeps the first entry block: once a program has one, no later
/// import replaces it.
pub proof fn lemma_first_main_is_kept(a: ProgramView, b: ProgramView, namespace: Option<Seq<char>>)
    requires
        a.main is Some,
    ensures
        combined(a, b, namespace).main == a.main,
{
}

fn qualify(namespace: &str, name: &String) -> (r: String)
    ensures
        r@ == qualified(namespace@, name@),
{
    proof {
        reveal_strlit(":");
        assert(":"@ =~= seq![':']);
    }
    let mut r = namespace.to_string();
    r.append(":");
    r.append(name.as_str());
    r
}

fn qualify_constants(items: &mut Vec<Constant>, ns: &str)
    ensures
        final(items).deep_view() == Seq::new(
            old(items).deep_view().len(),
            |i: int| qualified_constant(ns@, old(items).deep_view()[i]),
        ),
{
    let mut i: usize = 0;
    while i < items.len()
        invariant
            i <= items.len(),
            items@.len() == old(items)@.len(),
            forall|j: int| 0 <= j < i ==> (#[trigger] items@[j])@ == qualified_constant(ns@, old(items)@[j]@),
            forall|j: int| i <= j < items.len() ==> #[trigger] items@[j] == old(items)@[j],
        decreases items.len() - i,
    {
        let n = qualify(ns, &items[i].field.name);
        items[i].field.name = n;
        i += 1;
    }
    assert(items.deep_view() =~= Seq::new(
        old(items).deep_view().len(),
        |i: int| qualified_constant(ns@, old(items).deep_view()[i]),
    ));
}

fn qualify_enums(items: &mut Vec<EnumDefinition>, ns: &str)
    ensures
        final(items).deep_view() == Seq::new(
            old(items).deep_view().len(),
            |i: int| qualified_enum(ns@, old(items).deep_view()[i]),
        ),
{
    let mut i: usize = 0;
    while i < items.len()
        invariant
            i <= items.len(),
            items@.len() == old(items)@.len(),
            forall|j: int| 0 <= j < i ==> (#[trigger] items@[j])@ == qualified_enum(ns@, old(items)@[j]@),
            forall|j: int| i <= j < items.len() ==> #[trigger] items@[j] == old(items)@[j],
        decreases items.len() - i,
    {
        let n = qualify(ns, &items[i].name);
        items[i].name = n;
        i += 1;
    }
    assert(items.deep_view() =~= Seq::new(
        old(items).deep_view().len(),
        |i: int| qualified_enum(ns@, old(items).deep_view()[i]),
    ));
}

fn qualify_structs(items: &mut Vec<StructDefinition>, ns: &str)
    ensures
        final(items).deep_view() == Seq::new(
            old(items).deep_view().len(),
            |i: int| qualified_struct(ns@, old(items).deep_view()[i]),
        ),
{
    let mut i: usize = 0;
    while i < items.len()
        invariant
            i <= items.len(),
            items@.len() == old(items)@.len(),
            forall|j: int| 0 <= j < i ==> (#[trigger] items@[j])@ == qualified_struct(ns@, old(items)@[j]@),
            forall|j: int| i <= j < items.len() ==> #[trigger] items@[j] == old(items)@[j],
        decreases items.len() - i,
    {
        let n = qualify(ns, &items[i].name);
        items[i].name = n;
        i += 1;
    }
    assert(items.deep_view() =~= Seq::new(
        old(items).deep_view().len(),
        |i: int| qualified_struct(ns@, old(items).deep_view()[i]),
    ));
}

fn qualify_ranges(items: &mut Vec<RangeDefinition>, ns: &str)
    ensures
        final(items).deep_view() == Seq::new(
            old(items).deep_view().len(),
            |i: int| qualified_range(ns@, old(items).deep_view()[i]),
        ),
{
    let mut i: usize = 0;
    while i < items.len()
        invariant
            i <= items.len(),
            items@.len() == old(items)@.len(),
            forall|j: int| 0 <= j < i ==> (#[trigger] items@[j])@ == qualified_range(ns@, old(items)@[j]@),
            forall|j: int| i <= j < items.len() ==> #[trigger] items@[j] == old(items)@[j],
        decreases items.len() - i,
    {
        let n = qualify(ns, &items[i].name);
        items[i].name = n;
        i += 1;
    }
    assert(items.deep_view() =~= Seq::new(
        old(items).deep_view().len(),
        |i: int| qualified_range(ns@, old(items).deep_view()[i]),
    ));
}

fn qualify_callables(items: &mut Vec<CallableDefinition>, ns: &str)
    ensures
        final(items).deep_view() == Seq::new(
            old(items).deep_view().len(),
            |i: int| qualified_callable(ns@, old(items).deep_view()[i]),
        ),
{
    let mut i: usize = 0;
    while i < items.len()
        invariant
            i <= items.len(),
            items@.len() == old(items)@.len(),
            forall|j: int| 0 <= j < i ==> (#[trigger] items@[j])@ == qualified_callable(ns@, old(items)@[j]@),
            forall|j: int| i <= j < items.len() ==> #[trigger] items@[j] == old(items)@[j],
        decreases items.len() - i,
    {
        let n = qualify(ns, &items[i].name);
        items[i].name = n;
        i += 1;
    }
    assert(items.deep_view() =~= Seq::new(
        old(items).deep_view().len(),
        |i: int| qualified_callable(ns@, old(items).deep_view()[i]),
    ));
}

impl Program {
    /// Merges the program `b` into this one, its names inside `namespace`
    /// where one is given.
    pub fn combine(self, b: Self, namespace: Option<String>) -> (r: Self)
        ensures
            r@ == combined(self@, b@, namespace.deep_view()),
    {
        let mut a = self;
        let mut b = b;
        if let Some(ns) = namespace {
            b.apply_namespace(ns.as_str());
        }
        append_deep(&mut a.imports, &mut b.imports);
        append_deep(&mut a.constants, &mut b.constants);
        append_deep(&mut a.enums, &mut b.enums);
        append_deep(&mut a.structs, &mut b.structs);
        append_deep(&mut a.ranges, &mut b.ranges);
        append_deep(&mut a.callables, &mut b.callables);
        let main = match a.main {
            Some(m) => Some(m),
            None => b.main,
        };
        Program {
            imports: a.imports,
            constants: a.constants,
            enums: a.enums,
            structs: a.structs,
            ranges: a.ranges,
            callables: a.callables,
            main,
        }
    }

    /// Merges the imported programs into this one, in their order.
    pub fn merge_imports(self, imports: Vec<(Program, Option<String>)>) -> (r: Self)
        ensures
            r@ == merged(self@, imports.deep_view()),
    {
        let ghost all = imports.deep_view();
        let ghost raw = imports@;
        let ghost start = self@;
        let mut root = self;
        proof {
            lemma_skip_all(all);
        }
        for import in it: imports.into_iter()
            invariant
                it.seq() == raw,
                all.len() == raw.len(),
                forall|i: int| 0 <= i < raw.len() ==> all[i] == #[trigger] raw[i].deep_view(),
                merged(start, all) == merged(root@, all.skip(it.index() as int)),
        {
            proof {
                lemma_skip_step(all, it.index() as int);
                assert(all[it.index() as int] == raw[it.index() as int].deep_view());
            }
            let (program, namespace) = import;
            root = root.combine(program, namespace).clear_imports();
        }
        proof {
            lemma_skip_all(all);
        }
        root
    }

    /// Drops the imports, once they are merged.
    pub fn clear_imports(self) -> (r: Self)
        ensures
            r@ == without_imports(self@),
    {
        Program {
            imports: crate::views::empty_deep(),
            constants: self.constants,
            enums: self.enums,
            structs: self.structs,
            ranges: self.ranges,
            callables: self.callables,
            main: self.main,
        }
    }

    /// Puts the name of every definition inside the namespace `ns`.
    pub fn apply_namespace(&mut self, ns: &str)
        ensures
            final(self)@ == namespaced(old(self)@, ns@),
    {
        qualify_constants(&mut self.constants, ns);
        qualify_enums(&mut self.enums, ns);
        qualify_structs(&mut self.structs, ns);
        qualify_ranges(&mut self.ranges, ns);
        qualify_callables(&mut self.callables, ns);
    }
}

} // verus!
