//! The decisions behind the attribute that turns an async function of a
//! client and an `OwnedEvent` into a function that builds a channel layer.
//! The attribute rewrites the function's signature; what it rewrites, and
//! how the generated code calls the original function, is decided here.
use vstd::prelude::*;

verus! {

/// The first parameter of the function that the attribute is put on.
pub enum FirstParam {
    /// A `self` receiver, or no parameter at all.
    Receiver,
    /// A typed parameter: the name it binds, when its pattern is a plain
    /// identifier, and, when its type is a reference, whether that
    /// reference is mutable.
    Typed { ident: Option<String>, reference: Option<bool> },
}

/// How the function is rewritten.
pub struct LayerFnPlan {
    /// For the generated outer function: when the first parameter's type is
    /// a reference, the parameter takes the referenced type by value and its
    /// binding gets the reference's mutability (`Some` of it); otherwise the
    /// parameter stays as it is (`None`).
    pub owned_first: Option<bool>,
    /// For the inner function: whether the first parameter, being typed but
    /// not a reference, gets its type borrowed.
    pub borrow_first: bool,
    /// The expression that the generated code passes as the first argument
    /// of the inner function.
    pub first_arg: String,
}

/// Why the attribute cannot rewrite a function.
#[derive(Copy, Clone, Debug, PartialEq, Eq, Structural)]
pub enum LayerFnError {
    /// The function does not take exactly two parameters.
    ParamCount,
}

impl LayerFnError {
    /// The compile error that is reported for this reason.
    pub fn message(&self) -> (s: &'static str)
        ensures
            s@ == param_count_message(),
    {
        proof {
            reveal_strlit("function should take two parameters of which the second must be an `OwnedEvent`");
        }
        "function should take two parameters of which the second must be an `OwnedEvent`"
    }
}

/// The text of the error for a function that does not take two parameters.
pub open spec fn param_count_message() -> Seq<char> {
    "function should take two parameters of which the second must be an `OwnedEvent`"@
}

/// Whether the first parameter is a mutable reference.
pub open spec fn first_is_mut_ref(first: FirstParam) -> bool {
    first matches FirstParam::Typed { reference: Some(true), .. }
}

/// The name of the first parameter as the generated call writes it.
pub open spec fn first_name(first: FirstParam) -> Seq<char> {
    match first {
        FirstParam::Typed { ident: Some(name), .. } => name@,
        _ => seq!['s', 'e', 'l', 'f'],
    }
}

/// The first argument of the generated call: a borrow of the first
/// parameter, mutable when the parameter was a mutable reference.
pub open spec fn first_arg_spec(first: FirstParam) -> Seq<char> {
    let prefix = if first_is_mut_ref(first) {
        seq!['&', 'm', 'u', 't', ' ']
    } else {
        seq!['&']
    };
    prefix + first_name(first)
}

/// The generated call always borrows the first parameter: its first
/// argument is `&` or `&mut ` followed by the parameter's name, or `self`.
pub proof fn lemma_first_arg_borrows(first: FirstParam)
    ensures
        first_arg_spec(first)[0] == '&',
        first_arg_spec(first).len() > first_name(first).len(),
        first_arg_spec(first).subrange(
            first_arg_spec(first).len() - first_name(first).len(),
            first_arg_spec(first).len() as int,
        ) == first_name(first),
{
    let prefix = if first_is_mut_ref(first) {
        seq!['&', 'm', 'u', 't', ' ']
    } else {
        seq!['&']
    };
    assert(first_arg_spec(first) == prefix + first_name(first));
    assert((prefix + first_name(first)).subrange(prefix.len() as int, (prefix + first_name(first)).len() as int) =~= first_name(first));
}

/// The first argument of the generated call, written out: `&mut name` for
/// a parameter `name` of mutable reference type, `&name` for any other
/// parameter `name`, and `self` in place of the name where the parameter
/// binds no plain identifier or is a receiver.
pub proof fn lemma_first_arg_text(first: FirstParam)
    ensures
        first matches FirstParam::Typed { ident: Some(name), reference: Some(true) }
            ==> first_arg_spec(first) == seq!['&', 'm', 'u', 't', ' '] + name@,
        first matches FirstParam::Typed { ident: Some(name), reference: Some(false) }
            ==> first_arg_spec(first) == seq!['&'] + name@,
        first matches FirstParam::Typed { ident: Some(name), reference: None }
            ==> first_arg_spec(first) == seq!['&'] + name@,
        first matches FirstParam::Typed { ident: None, reference: Some(true) }
            ==> first_arg_spec(first) == seq!['&', 'm', 'u', 't', ' ', 's', 'e', 'l', 'f'],
        first matches FirstParam::Typed { ident: None, reference: Some(false) }
            ==> first_arg_spec(first) == seq!['&', 's', 'e', 'l', 'f'],
        first matches FirstParam::Typed { ident: None, reference: None }
            ==> first_arg_spec(first) == seq!['&', 's', 'e', 'l', 'f'],
        first is Receiver ==> first_arg_spec(first) == seq!['&', 's', 'e', 'l', 'f'],
{
    assert(seq!['&', 'm', 'u', 't', ' '] + seq!['s', 'e', 'l', 'f'] =~= seq!['&', 'm', 'u', 't', ' ', 's', 'e', 'l', 'f']);
    assert(seq!['&'] + seq!['s', 'e', 'l', 'f'] =~= seq!['&', 's', 'e', 'l', 'f']);
}

/// What becomes of the first parameter in the outer function.
pub open spec fn owned_first_spec(first: FirstParam) -> Option<bool> {
    match first {
        FirstParam::Typed { reference, .. } => reference,
        FirstParam::Receiver => None,
    }
}

/// Whether the inner function's first parameter gets borrowed.
pub open spec fn borrow_first_spec(first: FirstParam) -> bool {
    first matches FirstParam::Typed { reference: None, .. }
}

/// Decides how a function with `param_count` parameters, the first of which
/// is `first`, is rewritten; a function that does not take exactly two
/// parameters is refused.
pub fn plan_layer_function(param_count: usize, first: &FirstParam) -> (r: Result<LayerFnPlan, LayerFnError>)
    ensures
        r is Err <==> param_count != 2,
        r matches Err(e) ==> e == LayerFnError::ParamCount,
        r matches Ok(p) ==> {
            &&& p.owned_first == owned_first_spec(*first)
            &&& p.borrow_first == borrow_first_spec(*first)
            &&& p.first_arg@ == first_arg_spec(*first)
        },
        r matches Ok(p) ==> {
            &&& (first matches FirstParam::Typed { ident: Some(name), reference: Some(true) }
                ==> p.first_arg@ == seq!['&', 'm', 'u', 't', ' '] + name@)
            &&& (first matches FirstParam::Typed { ident: Some(name), reference: Some(false) }
                ==> p.first_arg@ == seq!['&'] + name@)
            &&& (first matches FirstParam::Typed { ident: Some(name), reference: None }
                ==> p.first_arg@ == seq!['&'] + name@)
            &&& (first matches FirstParam::Typed { ident: None, reference: Some(true) }
                ==> p.first_arg@ == seq!['&', 'm', 'u', 't', ' ', 's', 'e', 'l', 'f'])
            &&& (first matches FirstParam::Typed { ident: None, reference: Some(false) }
                ==> p.first_arg@ == seq!['&', 's', 'e', 'l', 'f'])
            &&& (first matches FirstParam::Typed { ident: None, reference: None }
                ==> p.first_arg@ == seq!['&', 's', 'e', 'l', 'f'])
            &&& (first is Receiver ==> p.first_arg@ == seq!['&', 's', 'e', 'l', 'f'])
            &&& (first matches FirstParam::Typed { reference, .. } ==> p.owned_first == reference)
            &&& (first is Receiver ==> p.owned_first is None)
            &&& (p.borrow_first <==> first matches FirstParam::Typed { reference: None, .. })
        },
{
    if param_count != 2 {
        return Err(LayerFnError::ParamCount);
    }
    let (owned_first, borrow_first, mutable) = match first {
        FirstParam::Typed { reference, .. } => match reference {
            Some(m) => (Some(*m), false, *m),
            None => (None, true, false),
        },
        FirstParam::Receiver => (None, false, false),
    };
    proof {
        reveal_strlit("&mut ");
        reveal_strlit("&");
        reveal_strlit("self");
        assert("&mut "@ =~= seq!['&', 'm', 'u', 't', ' ']);
        assert("&"@ =~= seq!['&']);
        assert("self"@ =~= seq!['s', 'e', 'l', 'f']);
    }
    let mut first_arg = if mutable {
        String::from_str("&mut ")
    } else {
        String::from_str("&")
    };
    match first {
        FirstParam::Typed { ident: Some(name), .. } => first_arg.append(name.as_str()),
        _ => first_arg.append("self"),
    }
    proof {
        lemma_first_arg_text(*first);
    }
    Ok(LayerFnPlan { owned_first, borrow_first, first_arg })
}

} // verus!
