use vstd::prelude::*;

verus! {

/// A value of the language's closed type algebra.
///
/// `TList`, `TMaybe` and the return slot of `TFunction` own their payload
/// through a `Box`; the parameter types of a `TFunction` are positional.
#[derive(Debug)]
pub enum Type {
    TInteger,
    TReal,
    TBool,
    TString,
    TList(Box<Type>),
    TMaybe(Box<Type>),
    TFunction(Box<Type>, Vec<Type>),
}

/// The mathematical model of a `Type`: the same tree, with the parameter
/// types of a function type held as a sequence.
pub ghost enum TypeView {
    Integer,
    Real,
    Bool,
    Str,
    List(Box<TypeView>),
    Maybe(Box<TypeView>),
    Func(Box<TypeView>, Seq<TypeView>),
}

/// The models of the types of `ts`, position by position.
pub open spec fn views_of(ts: Seq<Type>) -> Seq<TypeView>
    decreases ts,
{
    Seq::new(
        ts.len(),
        |i: int|
            if 0 <= i < ts.len() {
                ts[i].view_rec()
            } else {
                TypeView::Integer
            },
    )
}

impl Type {
    /// The model of this type; `@` stands for it.
    pub open spec fn view_rec(&self) -> TypeView
        decreases self,
    {
        match self {
            Type::TInteger => TypeView::Integer,
            Type::TReal => TypeView::Real,
            Type::TBool => TypeView::Bool,
            Type::TString => TypeView::Str,
            Type::TList(t) => TypeView::List(Box::new(t.view_rec())),
            Type::TMaybe(t) => TypeView::Maybe(Box::new(t.view_rec())),
            Type::TFunction(r, ps) => TypeView::Func(Box::new(r.view_rec()), views_of(ps@)),
        }
    }
}

impl View for Type {
    type V = TypeView;

    open spec fn view(&self) -> TypeView {
        self.view_rec()
    }
}

impl Type {
    /// A deep copy: a fresh tree with the same structure.
    pub fn copy(&self) -> (r: Type)
        ensures
            r@ == self@,
        decreases self,
    {
        match self {
            Type::TInteger => Type::TInteger,
            Type::TReal => Type::TReal,
            Type::TBool => Type::TBool,
            Type::TString => Type::TString,
            Type::TList(t) => Type::TList(Box::new((&**t).copy())),
            Type::TMaybe(t) => Type::TMaybe(Box::new((&**t).copy())),
            Type::TFunction(r, ps) => {
                let ret = (&**r).copy();
                let mut out: Vec<Type> = Vec::new();
                let mut i: usize = 0;
                while i < ps.len()
                    invariant
                        i <= ps.len(),
                        *self == Type::TFunction(*r, *ps),
                        out@.len() == i,
                        forall|j: int| 0 <= j < i ==> (#[trigger] out@[j])@ == ps@[j]@,
                    decreases ps.len() - i,
                {
                    proof {
                        assert(decreases_to!(*self => (*self)->TFunction_1));
                        assert(decreases_to!(*ps => ps[i as int]));
                        assert(decreases_to!(self => ps[i as int]));
                    }
                    out.push(ps[i].copy());
                    i = i + 1;
                }
                assert(views_of(out@) =~= views_of(ps@));
                Type::TFunction(Box::new(ret), out)
            },
        }
    }

    /// Structural (deep) equality.
    pub fn same(&self, other: &Type) -> (r: bool)
        ensures
            r == (self@ == other@),
        decreases self,
    {
        match (self, other) {
            (Type::TInteger, Type::TInteger) => true,
            (Type::TReal, Type::TReal) => true,
            (Type::TBool, Type::TBool) => true,
            (Type::TString, Type::TString) => true,
            (Type::TList(a), Type::TList(b)) => (&**a).same((&**b)),
            (Type::TMaybe(a), Type::TMaybe(b)) => (&**a).same((&**b)),
            (Type::TFunction(ra, pa), Type::TFunction(rb, pb)) => {
                if !(&**ra).same((&**rb)) {
                    return false;
                }
                if pa.len() != pb.len() {
                    assert(views_of(pa@).len() != views_of(pb@).len());
                    return false;
                }
                let mut i: usize = 0;
                while i < pa.len()
                    invariant
                        i <= pa.len(),
                        *self == Type::TFunction(*ra, *pa),
                        *other == Type::TFunction(*rb, *pb),
                        (*ra)@ == (*rb)@,
                        pa.len() == pb.len(),
                        forall|j: int| 0 <= j < i ==> (#[trigger] pa@[j])@ == pb@[j]@,
                    decreases pa.len() - i,
                {
                    proof {
                        assert(decreases_to!(*self => (*self)->TFunction_1));
                        assert(decreases_to!(*pa => pa[i as int]));
                        assert(decreases_to!(self => pa[i as int]));
                    }
                    if !pa[i].same(&pb[i]) {
                        assert(views_of(pa@)[i as int] != views_of(pb@)[i as int]);
                        return false;
                    }
                    i = i + 1;
                }
                assert(views_of(pa@) =~= views_of(pb@));
                true
            },
            _ => false,
        }
    }
}

/// The body of a declared function. Statements are built and checked
/// elsewhere; signatures only record whether a body is present.
#[derive(Debug)]
pub struct Statement {
    pub source: String,
}

/// A named, typed parameter of a declared function.
#[derive(Debug)]
pub struct FormalArgument {
    pub argument_name: String,
    pub argument_type: Type,
}

/// A declared callable: name, return type, ordered parameters and an
/// optional body (absent for a signature-only stub).
#[derive(Debug)]
pub struct Function {
    pub name: String,
    pub kind: Type,
    pub params: Vec<FormalArgument>,
    pub body: Option<Box<Statement>>,
}

/// The model of a `FormalArgument`.
pub ghost struct ArgumentView {
    pub name: Seq<char>,
    pub ty: TypeView,
}

/// The model of a `Function`.
pub ghost struct FunctionView {
    pub name: Seq<char>,
    pub kind: TypeView,
    pub params: Seq<ArgumentView>,
    pub body: Option<Seq<char>>,
}

impl View for FormalArgument {
    type V = ArgumentView;

    open spec fn view(&self) -> ArgumentView {
        ArgumentView { name: self.argument_name@, ty: self.argument_type@ }
    }
}

impl View for Function {
    type V = FunctionView;

    open spec fn view(&self) -> FunctionView {
        FunctionView {
            name: self.name@,
            kind: self.kind@,
            params: self.params@.map_values(|a: FormalArgument| a@),
            body: match self.body {
                Some(b) => Some(b.source@),
                None => None,
            },
        }
    }
}

impl FormalArgument {
    pub fn new(argument_name: String, argument_type: Type) -> (r: FormalArgument)
        ensures
            r@ == (ArgumentView { name: argument_name@, ty: argument_type@ }),
    {
        FormalArgument { argument_name, argument_type }
    }
}

impl Clone for Type {
    fn clone(&self) -> (r: Type)
        ensures
            r@ == self@,
    {
        self.copy()
    }
}

impl PartialEq for Type {
    fn eq(&self, other: &Type) -> (r: bool) {
        self.same(other)
    }
}

impl vstd::std_specs::cmp::PartialEqSpecImpl for Type {
    open spec fn obeys_eq_spec() -> bool {
        true
    }

    open spec fn eq_spec(&self, other: &Type) -> bool {
        self@ == other@
    }
}

} // verus!
