//! The options a native function's parameter can carry: `this`, `varargs`,
//! `convert = <expression>` and `strict`.
use vstd::prelude::*;

use crate::text::text_eq;

verus! {

/// One option of a parameter; `E` is the conversion expression.
pub enum ParameterAttributeArgument<E> {
    This,
    VarArgs,
    Convert(E),
    Strict,
}

/// The keywords that start an option.
#[derive(Clone, Copy, Debug, PartialEq, Eq, Structural)]
pub enum Keyword {
    This,
    VarArgs,
    Convert,
    Strict,
}

/// The keyword spelled `word`, if any.
pub open spec fn keyword_spec(word: Seq<char>) -> Option<Keyword> {
    if word == "this"@ {
        Option::Some(Keyword::This)
    } else if word == "varargs"@ {
        Option::Some(Keyword::VarArgs)
    } else if word == "convert"@ {
        Option::Some(Keyword::Convert)
    } else if word == "strict"@ {
        Option::Some(Keyword::Strict)
    } else {
        Option::None
    }
}

pub fn keyword(word: &str) -> (r: Option<Keyword>)
    ensures
        r == keyword_spec(word@),
{
    if text_eq(word, "this") {
        Option::Some(Keyword::This)
    } else if text_eq(word, "varargs") {
        Option::Some(Keyword::VarArgs)
    } else if text_eq(word, "convert") {
        Option::Some(Keyword::Convert)
    } else if text_eq(word, "strict") {
        Option::Some(Keyword::Strict)
    } else {
        Option::None
    }
}

/// Why a parameter's options were refused.
#[derive(Clone, Copy, Debug, PartialEq, Eq, Structural)]
pub enum AttributeError {
    MultipleThis,
    MultipleVarArgs,
    MultipleConvert,
    /// `this` together with `varargs`, `convert` or `strict`.
    ThisWithOthers,
}

/// The options of one parameter.
pub struct ParameterAttribute<E> {
    pub this: bool,
    pub varargs: bool,
    pub convert: Option<E>,
    pub strict: bool,
}

/// The keyword an option starts with.
pub open spec fn kind_of<E>(a: ParameterAttributeArgument<E>) -> Keyword {
    match a {
        ParameterAttributeArgument::This => Keyword::This,
        ParameterAttributeArgument::VarArgs => Keyword::VarArgs,
        ParameterAttributeArgument::Convert(_) => Keyword::Convert,
        ParameterAttributeArgument::Strict => Keyword::Strict,
    }
}

/// How many of `args` start with `k`.
pub open spec fn count<E>(args: Seq<ParameterAttributeArgument<E>>, k: Keyword) -> nat
    decreases args.len(),
{
    if args.len() == 0 {
        0
    } else {
        count(args.drop_last(), k) + if kind_of(args.last()) == k {
            1nat
        } else {
            0nat
        }
    }
}

/// The error for `args`, if any: the first option that repeats `this`,
/// `varargs` or `convert`.
pub open spec fn first_repeat<E>(args: Seq<ParameterAttributeArgument<E>>) -> Option<AttributeError>
    decreases args.len(),
{
    if args.len() == 0 {
        Option::None
    } else if first_repeat(args.drop_last()) is Some {
        first_repeat(args.drop_last())
    } else {
        let k = kind_of(args.last());
        if count(args.drop_last(), k) == 0 {
            Option::None
        } else {
            match k {
                Keyword::This => Option::Some(AttributeError::MultipleThis),
                Keyword::VarArgs => Option::Some(AttributeError::MultipleVarArgs),
                Keyword::Convert => Option::Some(AttributeError::MultipleConvert),
                Keyword::Strict => Option::None,
            }
        }
    }
}

/// The error for `args`, if any: a repeated option, else `this` beside any
/// other option.
pub open spec fn attribute_error<E>(args: Seq<ParameterAttributeArgument<E>>) -> Option<AttributeError> {
    if first_repeat(args) is Some {
        first_repeat(args)
    } else if count(args, Keyword::This) > 0 && (count(args, Keyword::VarArgs) > 0 || count(
        args,
        Keyword::Convert,
    ) > 0 || count(args, Keyword::Strict) > 0) {
        Option::Some(AttributeError::ThisWithOthers)
    } else {
        Option::None
    }
}

/// An error of a prefix is the error of the whole.
proof fn lemma_repeat_extends<E>(all: Seq<ParameterAttributeArgument<E>>, k: int)
    requires
        0 <= k <= all.len(),
        first_repeat(all.subrange(0, k)) is Some,
    ensures
        first_repeat(all) == first_repeat(all.subrange(0, k)),
    decreases all.len(),
{
    if k == all.len() {
        assert(all.subrange(0, k) =~= all);
    } else {
        assert(all.drop_last().subrange(0, k) =~= all.subrange(0, k));
        lemma_repeat_extends(all.drop_last(), k);
    }
}

impl<E> ParameterAttribute<E> {
    /// Gathers a parameter's options, in the order written.
    pub fn from_arguments(args: Vec<ParameterAttributeArgument<E>>) -> (r: Result<ParameterAttribute<E>, AttributeError>)
        ensures
            r is Err <==> attribute_error(args@) is Some,
            r is Err ==> Option::Some(r->Err_0) == attribute_error(args@),
            r matches Result::Ok(a) ==> {
                &&& a.this == (count(args@, Keyword::This) > 0)
                &&& a.varargs == (count(args@, Keyword::VarArgs) > 0)
                &&& a.strict == (count(args@, Keyword::Strict) > 0)
                &&& (a.convert is Some) == (count(args@, Keyword::Convert) > 0)
                &&& forall|j: int|
                    0 <= j < args@.len() && (#[trigger] args@[j]) is Convert ==> a.convert
                        == Option::Some(args@[j]->Convert_0)
            },
    {
        let ghost all = args@;
        let mut attributes = ParameterAttribute { this: false, varargs: false, convert: Option::None, strict: false };
        let mut rest = args;
        let ghost n = all.len();
        let ghost mut i: int = 0;
        while rest.len() > 0
            invariant
                n == all.len(),
                all == args@,
                0 <= i <= n,
                i + rest@.len() == n,
                rest@ == all.subrange(i, n as int),
                first_repeat(all.subrange(0, i)) is None,
                attributes.this == (count(all.subrange(0, i), Keyword::This) > 0),
                attributes.varargs == (count(all.subrange(0, i), Keyword::VarArgs) > 0),
                attributes.strict == (count(all.subrange(0, i), Keyword::Strict) > 0),
                (attributes.convert is Some) == (count(all.subrange(0, i), Keyword::Convert) > 0),
                attributes.convert is None ==> forall|j: int| 0 <= j < i ==> !(#[trigger] all[j] is Convert),
                forall|j: int|
                    0 <= j < i && (#[trigger] all[j]) is Convert ==> attributes.convert == Option::Some(
                        all[j]->Convert_0,
                    ),
            decreases rest@.len(),
        {
            let arg = rest.remove(0);
            proof {
                assert(arg == all[i]);
                assert(all.subrange(0, i + 1).drop_last() =~= all.subrange(0, i));
                assert(all.subrange(0, i + 1).last() == all[i]);
            }
            match arg {
                ParameterAttributeArgument::This => {
                    if attributes.this {
                        proof {
                            assert(first_repeat(all.subrange(0, i + 1)) == Option::Some(AttributeError::MultipleThis));
                            lemma_repeat_extends(all, i + 1);
                        }
                        return Result::Err(AttributeError::MultipleThis);
                    }
                    attributes.this = true;
                },
                ParameterAttributeArgument::VarArgs => {
                    if attributes.varargs {
                        proof {
                            assert(first_repeat(all.subrange(0, i + 1)) == Option::Some(AttributeError::MultipleVarArgs));
                            lemma_repeat_extends(all, i + 1);
                        }
                        return Result::Err(AttributeError::MultipleVarArgs);
                    }
                    attributes.varargs = true;
                },
                ParameterAttributeArgument::Convert(e) => {
                    if attributes.convert.is_some() {
                        proof {
                            assert(first_repeat(all.subrange(0, i + 1)) == Option::Some(AttributeError::MultipleConvert));
                            lemma_repeat_extends(all, i + 1);
                        }
                        return Result::Err(AttributeError::MultipleConvert);
                    }
                    attributes.convert = Option::Some(e);
                },
                ParameterAttributeArgument::Strict => {
                    attributes.strict = true;
                },
            }
            proof {
                i = i + 1;
            }
        }
        proof {
            assert(all.subrange(0, i) =~= all);
        }
        if attributes.this && (attributes.varargs || attributes.convert.is_some() || attributes.strict) {
            return Result::Err(AttributeError::ThisWithOthers);
        }
        Result::Ok(attributes)
    }
}

} // verus!
