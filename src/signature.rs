use vstd::prelude::*;

use crate::ast::{ArgumentView, FormalArgument, Function, FunctionView, Type, TypeView};

verus! {

/// The parameter types of a declaration, in order, names dropped.
pub open spec fn param_types(params: Seq<ArgumentView>) -> Seq<TypeView> {
    params.map_values(|a: ArgumentView| a.ty)
}

/// The function type that a declaration denotes.
pub open spec fn signature_type(f: FunctionView) -> TypeView {
    TypeView::Func(Box::new(f.kind), param_types(f.params))
}

/// Builds the function type of a declaration: its return type, then the
/// types of its parameters in order. Names and body are not part of it.
pub fn function_to_type(func: &Function) -> (r: Type)
    ensures
        r@ == signature_type(func@),
        r is TFunction,
        r->TFunction_1.len() == func.params.len(),
{
    let return_type = func.kind.copy();
    let mut param_types: Vec<Type> = Vec::new();
    let mut i: usize = 0;
    while i < func.params.len()
        invariant
            i <= func.params.len(),
            param_types@.len() == i,
            forall|j: int| 0 <= j < i ==> (#[trigger] param_types@[j])@ == func.params@[j].argument_type@,
        decreases func.params.len() - i,
    {
        param_types.push(func.params[i].argument_type.copy());
        i = i + 1;
    }
    let r = Type::TFunction(Box::new(return_type), param_types);
    assert(crate::ast::views_of(param_types@) =~= self::param_types(func@.params));
    r
}

/// The text of the decimal digit `d`.
pub open spec fn digit(d: nat) -> Seq<char> {
    if d == 0 {
        "0"@
    } else if d == 1 {
        "1"@
    } else if d == 2 {
        "2"@
    } else if d == 3 {
        "3"@
    } else if d == 4 {
        "4"@
    } else if d == 5 {
        "5"@
    } else if d == 6 {
        "6"@
    } else if d == 7 {
        "7"@
    } else if d == 8 {
        "8"@
    } else {
        "9"@
    }
}

/// The decimal text of `n`, without leading zeros.
pub open spec fn decimal(n: nat) -> Seq<char>
    decreases n,
{
    if n < 10 {
        digit(n)
    } else {
        decimal(n / 10) + digit(n % 10)
    }
}

/// The placeholder name of the parameter at 0-based position `i`:
/// `param` followed by its 1-based position.
pub open spec fn placeholder_name(i: int) -> Seq<char> {
    "param"@ + decimal((i + 1) as nat)
}

/// The constructor name of the variant of `t`.
pub open spec fn variant_name(t: TypeView) -> Seq<char> {
    match t {
        TypeView::Integer => "TInteger"@,
        TypeView::Real => "TReal"@,
        TypeView::Bool => "TBool"@,
        TypeView::Str => "TString"@,
        TypeView::List(_) => "TList"@,
        TypeView::Maybe(_) => "TMaybe"@,
        TypeView::Func(_, _) => "TFunction"@,
    }
}

/// The diagnostic for a type that was expected to be a function type.
pub open spec fn mismatch_message(t: TypeView) -> Seq<char> {
    "Expected Type::TFunction, but got Type::"@ + variant_name(t)
}

/// The signature-only declaration of a function type: no name, the given
/// return type, one placeholder-named parameter per type, no body.
pub open spec fn stub_of(ret: TypeView, params: Seq<TypeView>) -> FunctionView {
    FunctionView {
        name: Seq::empty(),
        kind: ret,
        params: Seq::new(params.len(), |i: int| ArgumentView { name: placeholder_name(i), ty: params[i] }),
        body: None,
    }
}

/// The declaration that a type expands to, or the diagnostic when it is not
/// a function type.
pub open spec fn declaration_of(t: TypeView) -> Result<FunctionView, Seq<char>> {
    match t {
        TypeView::Func(ret, params) => Ok(stub_of(*ret, params)),
        _ => Err(mismatch_message(t)),
    }
}

proof fn lemma_digit(d: nat)
    requires
        d < 10,
    ensures
        digit(d).len() == 1,
        forall|e: nat| e < 10 && #[trigger] digit(e) == digit(d) ==> e == d,
{
    reveal_strlit("0");
    reveal_strlit("1");
    reveal_strlit("2");
    reveal_strlit("3");
    reveal_strlit("4");
    reveal_strlit("5");
    reveal_strlit("6");
    reveal_strlit("7");
    reveal_strlit("8");
    reveal_strlit("9");
    assert forall|e: nat| e < 10 && #[trigger] digit(e) == digit(d) implies e == d by {
        assert(digit(e)[0] == digit(d)[0]);
    }
}

proof fn lemma_decimal_nonempty(n: nat)
    ensures
        decimal(n).len() >= 1,
        n >= 10 ==> decimal(n).len() >= 2,
    decreases n,
{
    lemma_digit(n % 10);
    if n >= 10 {
        lemma_decimal_nonempty(n / 10);
    }
}

/// Distinct numbers have distinct decimal texts.
pub proof fn lemma_decimal_injective(a: nat, b: nat)
    requires
        decimal(a) == decimal(b),
    ensures
        a == b,
    decreases a,
{
    lemma_decimal_nonempty(a);
    lemma_decimal_nonempty(b);
    lemma_digit(a % 10);
    lemma_digit(b % 10);
    if a < 10 && b < 10 {
    } else if a >= 10 && b >= 10 {
        let pa = decimal(a / 10);
        let pb = decimal(b / 10);
        lemma_decimal_nonempty(a / 10);
        assert(pa.len() == pb.len());
        assert(decimal(a).subrange(0, pa.len() as int) =~= pa);
        assert(decimal(b).subrange(0, pb.len() as int) =~= pb);
        assert(decimal(a).subrange(pa.len() as int, decimal(a).len() as int) =~= digit(a % 10));
        assert(decimal(b).subrange(pb.len() as int, decimal(b).len() as int) =~= digit(b % 10));
        lemma_decimal_injective(a / 10, b / 10);
    }
}

/// Placeholder names are unique per position: two different positions never
/// receive the same name.
pub proof fn lemma_placeholder_names_unique(i: int, j: int)
    requires
        0 <= i,
        0 <= j,
        i != j,
    ensures
        placeholder_name(i) != placeholder_name(j),
{
    if placeholder_name(i) == placeholder_name(j) {
        let p = "param"@;
        assert(placeholder_name(i).subrange(p.len() as int, placeholder_name(i).len() as int) =~= decimal((i + 1) as nat));
        assert(placeholder_name(j).subrange(p.len() as int, placeholder_name(j).len() as int) =~= decimal((j + 1) as nat));
        lemma_decimal_injective((i + 1) as nat, (j + 1) as nat);
    }
}

/// Declaration to type to declaration: expanding the type of any declaration
/// succeeds and gives back its return type and its parameter types, in
/// order; only the names are synthesized, and the body is absent.
pub proof fn lemma_declaration_round_trip(f: FunctionView)
    ensures
        declaration_of(signature_type(f)) is Ok,
        ({
            let d = declaration_of(signature_type(f))->Ok_0;
            &&& d.kind == f.kind
            &&& d.params.len() == f.params.len()
            &&& forall|i: int| 0 <= i < f.params.len() ==> #[trigger] d.params[i].ty == f.params[i].ty
            &&& forall|i: int| 0 <= i < f.params.len() ==> #[trigger] d.params[i].name == placeholder_name(i)
            &&& d.name.len() == 0
            &&& d.body is None
        }),
{
}

/// Type to declaration to type: a function type survives expansion and
/// collapse unchanged.
pub proof fn lemma_type_round_trip(t: TypeView)
    requires
        t is Func,
    ensures
        declaration_of(t) is Ok,
        signature_type(declaration_of(t)->Ok_0) == t,
{
    let d = declaration_of(t)->Ok_0;
    assert(param_types(d.params) =~= t->Func_1);
}

fn digit_str(d: usize) -> (r: &'static str)
    requires
        d < 10,
    ensures
        r@ == digit(d as nat),
{
    if d == 0 {
        "0"
    } else if d == 1 {
        "1"
    } else if d == 2 {
        "2"
    } else if d == 3 {
        "3"
    } else if d == 4 {
        "4"
    } else if d == 5 {
        "5"
    } else if d == 6 {
        "6"
    } else if d == 7 {
        "7"
    } else if d == 8 {
        "8"
    } else {
        "9"
    }
}

fn append_decimal(s: &mut String, n: usize)
    ensures
        final(s)@ == old(s)@ + decimal(n as nat),
    decreases n,
{
    if n < 10 {
        s.append(digit_str(n));
    } else {
        append_decimal(s, n / 10);
        s.append(digit_str(n % 10));
        assert(final(s)@ =~= old(s)@ + decimal(n as nat));
    }
}

/// The placeholder name of the parameter at 0-based position `i`.
pub fn placeholder(i: usize) -> (r: String)
    requires
        i < usize::MAX,
    ensures
        r@ == placeholder_name(i as int),
{
    let mut s = String::from_str("param");
    append_decimal(&mut s, i + 1);
    s
}

fn variant_str(t: &Type) -> (r: &'static str)
    ensures
        r@ == variant_name(t@),
{
    match t {
        Type::TInteger => "TInteger",
        Type::TReal => "TReal",
        Type::TBool => "TBool",
        Type::TString => "TString",
        Type::TList(_) => "TList",
        Type::TMaybe(_) => "TMaybe",
        Type::TFunction(_, _) => "TFunction",
    }
}

/// Expands a function type into a signature-only declaration: empty name,
/// the return type as its kind, parameters `param1`, `param2`, ... typed in
/// order, and no body. Any other type is refused with a diagnostic naming
/// the variant that was received.
pub fn type_to_function(f_type: &Type) -> (r: Result<Function, String>)
    ensures
        r is Err <==> !(f_type is TFunction),
        match r {
            Ok(f) => declaration_of(f_type@) == Ok::<FunctionView, Seq<char>>(f@),
            Err(e) => declaration_of(f_type@) == Err::<FunctionView, Seq<char>>(e@),
        },
{
    match f_type {
        Type::TFunction(boxed_ret_type, param_types) => {
            let kind = (&**boxed_ret_type).copy();
            let mut params: Vec<FormalArgument> = Vec::new();
            let mut i: usize = 0;
            while i < param_types.len()
                invariant
                    i <= param_types.len(),
                    params@.len() == i,
                    forall|j: int|
                        0 <= j < i ==> (#[trigger] params@[j])@ == (ArgumentView {
                            name: placeholder_name(j),
                            ty: param_types@[j]@,
                        }),
                decreases param_types.len() - i,
            {
                let name = placeholder(i);
                let ty = param_types[i].copy();
                params.push(FormalArgument::new(name, ty));
                i = i + 1;
            }
            let f = Function { name: String::new(), kind, params, body: None };
            assert(f@.params =~= stub_of((*boxed_ret_type)@, crate::ast::views_of(param_types@)).params);
            assert(f@ == stub_of((*boxed_ret_type)@, crate::ast::views_of(param_types@)));
            Ok(f)
        },
        _ => {
            let mut e = String::from_str("Expected Type::TFunction, but got Type::");
            e.append(variant_str(f_type));
            Err(e)
        },
    }
}

} // verus!
