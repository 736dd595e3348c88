//! The description/format artifact and its evaluation.
//!
//! For one error type the artifact holds, per case, the resolved
//! description.  Evaluating it against an environment binding each resolved
//! expression to its value reproduces exactly what the generated formatting
//! code would print: a zero-argument description prints its literal
//! unchanged, and a template binds its slots to the resolved expressions'
//! values positionally.

use vstd::prelude::*;
use crate::description::{ResolvedDescription, ResolvedDescriptionV};
use crate::error::{Error, ErrorV, FmResult, res_dv};
use crate::fields::{NamedField, NamedFieldV};
use crate::model::{ErrorType, ErrorTypeV, ErrorData, ErrorDataV};
use crate::render::{render_format, s_fmt};

verus! {

/// The value an environment binds an expression to, if any: the first
/// binding of that name.
pub open spec fn s_env_lookup(env: Seq<NamedFieldV<Seq<char>>>, key: Seq<char>) -> Option<
    Seq<char>,
>
    decreases env.len(),
{
    if env.len() == 0 {
        None
    } else if env[0].name == key {
        Some(env[0].value)
    } else {
        s_env_lookup(env.drop_first(), key)
    }
}

/// The values of the resolved expressions, in order, or the first
/// expression the environment does not bind.
pub open spec fn s_eval_args(
    args: Seq<Seq<char>>,
    env: Seq<NamedFieldV<Seq<char>>>,
) -> Result<Seq<Seq<char>>, ErrorV>
    decreases args.len(),
{
    if args.len() == 0 {
        Ok(Seq::empty())
    } else {
        match s_env_lookup(env, args[0]) {
            None => Err(ErrorV::UnknownField(args[0])),
            Some(v) => match s_eval_args(args.drop_first(), env) {
                Err(e) => Err(e),
                Ok(rest) => Ok(seq![v] + rest),
            },
        }
    }
}

/// What evaluating a resolved description yields: its literal unchanged
/// when it has no arguments, else the template rendered with the values of
/// its expressions, positionally in declaration order.
pub open spec fn s_display(
    rd: ResolvedDescriptionV,
    env: Seq<NamedFieldV<Seq<char>>>,
) -> Result<Seq<char>, ErrorV> {
    if rd.args.len() == 0 {
        Ok(rd.format)
    } else {
        match s_eval_args(rd.args, env) {
            Err(e) => Err(e),
            Ok(vals) => match s_fmt(rd.format, vals, 0) {
                Some(s) => Ok(s),
                None => Err(ErrorV::Parse("format"@)),
            },
        }
    }
}

/// Looks an expression up in the environment.
fn env_lookup(env: &Vec<NamedField<String>>, key: &str) -> (r: Option<String>)
    ensures
        match r {
            Some(v) => s_env_lookup(env.deep_view(), key@) == Some(v@),
            None => s_env_lookup(env.deep_view(), key@) is None,
        },
{
    let ghost envd = env.deep_view();
    let mut i: usize = 0;
    proof {
        assert(envd.skip(0) =~= envd);
    }
    while i < env.len()
        invariant
            0 <= i <= env@.len(),
            env@.len() == envd.len(),
            envd == env.deep_view(),
            s_env_lookup(envd, key@) == s_env_lookup(envd.skip(i as int), key@),
        decreases env@.len() - i,
    {
        let ghost tail = envd.skip(i as int);
        proof {
            assert(tail[0] == envd[i as int]);
            assert(tail.drop_first() =~= envd.skip(i as int + 1));
        }
        if crate::util::string_eq_str(&env[i].name, key) {
            return Some(env[i].value.clone());
        }
        i = i + 1;
    }
    proof {
        assert(envd.skip(env@.len() as int) =~= Seq::<NamedFieldV<Seq<char>>>::empty());
    }
    None
}

/// Evaluates a resolved description against an environment binding each
/// resolved expression to its value.
pub fn display_in_env(rd: &ResolvedDescription, env: &Vec<NamedField<String>>) -> (r: FmResult<
    String,
>)
    ensures
        res_dv(r) == s_display(rd.deep_view(), env.deep_view()),
{
    if rd.args.len() == 0 {
        return Ok(rd.format.clone());
    }
    let ghost argsd = rd.args.deep_view();
    let mut vals: Vec<String> = Vec::new();
    let mut i: usize = 0;
    proof {
        assert(argsd.skip(0) =~= argsd);
    }
    while i < rd.args.len()
        invariant
            0 <= i <= rd.args@.len(),
            rd.args@.len() == argsd.len(),
            argsd == rd.args.deep_view(),
            s_eval_args(argsd, env.deep_view()) == match s_eval_args(
                argsd.skip(i as int),
                env.deep_view(),
            ) {
                Err(e) => Err::<Seq<Seq<char>>, ErrorV>(e),
                Ok(rest) => Ok::<Seq<Seq<char>>, ErrorV>(vals.deep_view() + rest),
            },
        decreases rd.args@.len() - i,
    {
        let ghost tail = argsd.skip(i as int);
        proof {
            assert(tail[0] == argsd[i as int]);
            assert(tail.drop_first() =~= argsd.skip(i as int + 1));
        }
        match env_lookup(env, rd.args[i].as_str()) {
            None => {
                return Err(Error::unknown_field(rd.args[i].as_str()));
            },
            Some(v) => {
                let ghost pre = vals.deep_view();
                let ghost vv = v@;
                vals.push(v);
                proof {
                    assert(vals.deep_view() =~= pre.push(vv));
                    if s_eval_args(argsd.skip(i as int + 1), env.deep_view()) is Ok {
                        let rest = s_eval_args(argsd.skip(i as int + 1), env.deep_view())->Ok_0;
                        assert(pre + (seq![vv] + rest) =~= vals.deep_view() + rest);
                    }
                }
            },
        }
        i = i + 1;
    }
    proof {
        assert(argsd.skip(rd.args@.len() as int) =~= Seq::<Seq<char>>::empty());
        assert(vals.deep_view() + Seq::<Seq<char>>::empty() =~= vals.deep_view());
    }
    match render_format(rd.format.as_str(), &vals) {
        Some(out) => Ok(out),
        None => Err(Error::Parse("format".to_owned())),
    }
}

impl ResolvedDescription {
    /// An exact copy, with a contract.
    pub fn duplicate(&self) -> (r: ResolvedDescription)
        ensures
            r.deep_view() == self.deep_view(),
    {
        let mut args: Vec<String> = Vec::new();
        let mut i: usize = 0;
        while i < self.args.len()
            invariant
                0 <= i <= self.args@.len(),
                args@.len() == i as int,
                forall|k: int|
                    0 <= k < i as int ==> (#[trigger] args@[k])@ == self.args@[k]@,
            decreases self.args@.len() - i,
        {
            args.push(self.args[i].clone());
            i = i + 1;
        }
        proof {
            assert(args.deep_view() =~= self.args.deep_view());
        }
        ResolvedDescription { format: self.format.clone(), args }
    }
}

/// The description/format artifact for one error type: one resolved
/// description per case.
pub enum DisplayImpl {
    Struct(ResolvedDescription),
    Enum(Vec<NamedField<ResolvedDescription>>),
}

/// Mathematical image of [`DisplayImpl`].
pub enum DisplayImplV {
    Struct(ResolvedDescriptionV),
    Enum(Seq<NamedFieldV<ResolvedDescriptionV>>),
}

impl DeepView for DisplayImpl {
    type V = DisplayImplV;

    open spec fn deep_view(&self) -> DisplayImplV {
        match self {
            DisplayImpl::Struct(rd) => DisplayImplV::Struct(rd.deep_view()),
            DisplayImpl::Enum(cases) => DisplayImplV::Enum(cases.deep_view()),
        }
    }
}

/// What the description artifact of a whole error type is.
pub open spec fn s_display_for_type(ty: ErrorTypeV) -> DisplayImplV {
    match ty.data {
        ErrorDataV::Struct(s) => DisplayImplV::Struct(s.description),
        ErrorDataV::Enum(vs) => DisplayImplV::Enum(
            Seq::new(
                vs.len(),
                |k: int| NamedFieldV { name: vs[k].ident, value: vs[k].description },
            ),
        ),
    }
}

impl DisplayImpl {
    /// Builds the description artifact for one error type.
    pub fn for_type(ty: &ErrorType) -> (r: DisplayImpl)
        ensures
            r.deep_view() == s_display_for_type(ty.deep_view()),
    {
        match &ty.data {
            ErrorData::Struct(s) => DisplayImpl::Struct(s.description.duplicate()),
            ErrorData::Enum(vs) => {
                let ghost vsd = vs.deep_view();
                let mut out: Vec<NamedField<ResolvedDescription>> = Vec::new();
                let mut i: usize = 0;
                while i < vs.len()
                    invariant
                        0 <= i <= vs@.len(),
                        vs@.len() == vsd.len(),
                        vsd == vs.deep_view(),
                        out@.len() == i as int,
                        forall|k: int|
                            0 <= k < i as int ==> (#[trigger] out.deep_view()[k]) == (NamedFieldV {
                                name: vsd[k].ident,
                                value: vsd[k].description,
                            }),
                    decreases vs@.len() - i,
                {
                    let ghost pre = out.deep_view();
                    out.push(
                        NamedField {
                            name: vs[i].ident.clone(),
                            value: vs[i].description.duplicate(),
                        },
                    );
                    proof {
                        assert(out.deep_view() =~= pre.push(out@[i as int].deep_view()));
                        assert(out.deep_view()[i as int] == (NamedFieldV {
                            name: vsd[i as int].ident,
                            value: vsd[i as int].description,
                        }));
                    }
                    i = i + 1;
                }
                proof {
                    assert(out.deep_view() =~= Seq::new(
                        vsd.len(),
                        |k: int| NamedFieldV { name: vsd[k].ident, value: vsd[k].description },
                    ));
                }
                DisplayImpl::Enum(out)
            },
        }
    }

    /// What rendering one case yields: a struct ignores the case name; an
    /// enum requires one, and an unknown case name is rejected.
    pub open spec fn s_render(
        d: DisplayImplV,
        case: Option<Seq<char>>,
        env: Seq<NamedFieldV<Seq<char>>>,
    ) -> Result<Seq<char>, ErrorV> {
        match d {
            DisplayImplV::Struct(rd) => s_display(rd, env),
            DisplayImplV::Enum(cases) => match case {
                None => Err(ErrorV::MissingField("variant"@)),
                Some(c) => match s_env_lookup_case(cases, c) {
                    None => Err(ErrorV::UnknownField(c)),
                    Some(rd) => s_display(rd, env),
                },
            },
        }
    }

    /// Renders the description of one case against an environment binding
    /// each resolved expression to its value.
    pub fn render(&self, case: Option<&str>, env: &Vec<NamedField<String>>) -> (r: FmResult<
        String,
    >)
        ensures
            res_dv(r) == Self::s_render(
                self.deep_view(),
                match case {
                    Some(c) => Some(c@),
                    None => None,
                },
                env.deep_view(),
            ),
    {
        match self {
            DisplayImpl::Struct(rd) => display_in_env(rd, env),
            DisplayImpl::Enum(cases) => match case {
                None => Err(Error::missing_field("variant")),
                Some(c) => {
                    let ghost casesd = cases.deep_view();
                    let mut i: usize = 0;
                    proof {
                        assert(casesd.skip(0) =~= casesd);
                    }
                    while i < cases.len()
                        invariant
                            0 <= i <= cases@.len(),
                            cases@.len() == casesd.len(),
                            casesd == cases.deep_view(),
                            self.deep_view() == DisplayImplV::Enum(casesd),
                            case matches Some(cc) && cc@ == c@,
                            s_env_lookup_case(casesd, c@) == s_env_lookup_case(
                                casesd.skip(i as int),
                                c@,
                            ),
                        decreases cases@.len() - i,
                    {
                        let ghost tail = casesd.skip(i as int);
                        proof {
                            assert(tail[0] == casesd[i as int]);
                            assert(tail.drop_first() =~= casesd.skip(i as int + 1));
                        }
                        if crate::util::string_eq_str(&cases[i].name, c) {
                            return display_in_env(&cases[i].value, env);
                        }
                        i = i + 1;
                    }
                    proof {
                        assert(casesd.skip(cases@.len() as int)
                            =~= Seq::<NamedFieldV<ResolvedDescriptionV>>::empty());
                    }
                    Err(Error::unknown_field(c))
                },
            },
        }
    }
}

/// The resolved description of the first case of the given name, if any.
pub open spec fn s_env_lookup_case(
    cases: Seq<NamedFieldV<ResolvedDescriptionV>>,
    key: Seq<char>,
) -> Option<ResolvedDescriptionV>
    decreases cases.len(),
{
    if cases.len() == 0 {
        None
    } else if cases[0].name == key {
        Some(cases[0].value)
    } else {
        s_env_lookup_case(cases.drop_first(), key)
    }
}

} // verus!
