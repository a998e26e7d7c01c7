//! The `#[instruction(discriminator = ...)]` attribute: the instruction
//! handler's first parameter is its context, the others are the fields of
//! the instruction data that follows the discriminator.
use vstd::prelude::*;

verus! {

/// One parameter of the handler.
pub enum Param {
    /// `self`, `&self` or `&mut self`.
    Receiver,
    /// A typed parameter; its name when its pattern is a plain identifier.
    Typed { ident: Option<String> },
}

/// What the generated handler is made of.
pub struct InstructionPlan {
    /// The context parameter's name.
    pub ctx_ident: String,
    /// The index of each data field among the handler's parameters, and its
    /// name, in order.
    pub data_fields: Vec<(usize, String)>,
    /// The number of discriminator bytes the data starts with.
    pub disc_len: usize,
}

#[derive(Debug, Clone, Copy, PartialEq, Eq, Structural)]
pub enum InstructionError {
    /// The handler has no typed first parameter.
    MissingContext,
    /// The context parameter's pattern is not an identifier.
    ContextNotIdent,
    /// A data parameter's pattern is not an identifier.
    ParamNotIdent,
}

impl InstructionError {
    pub open spec fn message_view(self) -> Seq<char> {
        match self {
            InstructionError::MissingContext => "#[instruction] requires ctx: Ctx<T> as first parameter"@,
            InstructionError::ContextNotIdent => "#[instruction] ctx parameter must be an identifier"@,
            InstructionError::ParamNotIdent => "#[instruction] parameters must be simple identifiers"@,
        }
    }

    pub fn message(self) -> (s: &'static str)
        ensures
            s@ == self.message_view(),
    {
        match self {
            InstructionError::MissingContext => "#[instruction] requires ctx: Ctx<T> as first parameter",
            InstructionError::ContextNotIdent => "#[instruction] ctx parameter must be an identifier",
            InstructionError::ParamNotIdent => "#[instruction] parameters must be simple identifiers",
        }
    }
}

/// A parameter's name as a sequence of chars, or `None` when the parameter
/// is a receiver; `Some(None)` when its pattern is no identifier.
pub open spec fn param_view(p: Param) -> Option<Option<Seq<char>>> {
    match p {
        Param::Receiver => None,
        Param::Typed { ident } => Some(
            match ident {
                Some(s) => Some(s@),
                None => None,
            },
        ),
    }
}

/// The typed parameters after the first, with their positions.
pub open spec fn data_params(ps: Seq<Option<Option<Seq<char>>>>, from: int) -> Seq<(int, Option<Seq<char>>)>
    decreases ps.len() - from,
{
    if from >= ps.len() || from < 0 {
        seq![]
    } else {
        match ps[from] {
            Some(name) => seq![(from, name)] + data_params(ps, from + 1),
            None => data_params(ps, from + 1),
        }
    }
}

pub open spec fn plan_spec(ps: Seq<Option<Option<Seq<char>>>>) -> Result<(Seq<char>, Seq<(int, Seq<char>)>), InstructionError> {
    if ps.len() == 0 || ps[0] is None {
        Err(InstructionError::MissingContext)
    } else if ps[0]->0 is None {
        Err(InstructionError::ContextNotIdent)
    } else {
        let rest = data_params(ps, 1);
        if exists|i: int| 0 <= i < rest.len() && rest[i].1 is None {
            Err(InstructionError::ParamNotIdent)
        } else {
            Ok((ps[0]->0->0, rest.map_values(|p: (int, Option<Seq<char>>)| (p.0, p.1->0))))
        }
    }
}

pub open spec fn fields_view(v: Seq<(usize, String)>) -> Seq<(int, Seq<char>)> {
    v.map_values(|p: (usize, String)| (p.0 as int, p.1@))
}

/// Checks the handler's parameters and lays out its data: the context
/// parameter, then every other typed parameter as a data field.
pub fn plan_instruction(params: &Vec<Param>, disc_len: usize) -> (r: Result<InstructionPlan, InstructionError>)
    ensures
        match plan_spec(params@.map_values(|p: Param| param_view(p))) {
            Ok((ctx, fields)) => r matches Ok(plan) && plan.ctx_ident@ == ctx && fields_view(
                plan.data_fields@,
            ) == fields && plan.disc_len == disc_len,
            Err(e) => r matches Err(err) && err == e,
        },
{
    let ghost ps = params@.map_values(|p: Param| param_view(p));
    if params.len() == 0 {
        return Err(InstructionError::MissingContext);
    }
    let ctx_ident = match &params[0] {
        Param::Receiver => return Err(InstructionError::MissingContext),
        Param::Typed { ident } => match ident {
            Some(name) => name.clone(),
            None => return Err(InstructionError::ContextNotIdent),
        },
    };
    let mut data_fields: Vec<(usize, String)> = Vec::new();
    let mut i: usize = 1;
    while i < params.len()
        invariant
            ps == params@.map_values(|p: Param| param_view(p)),
            1 <= i <= params@.len(),
            ps[0] == Some(Some(ctx_ident@)),
            data_params(ps, 1) == fields_view(data_fields@).map_values(
                |p: (int, Seq<char>)| (p.0, Some(p.1)),
            ) + data_params(ps, i as int),
        decreases params@.len() - i,
    {
        let ghost before = data_fields@;
        match &params[i] {
            Param::Receiver => {},
            Param::Typed { ident } => match ident {
                Some(name) => {
                    data_fields.push((i, name.clone()));
                    assert(fields_view(data_fields@).map_values(
                        |p: (int, Seq<char>)| (p.0, Some(p.1)),
                    ) =~= fields_view(before).map_values(|p: (int, Seq<char>)| (p.0, Some(p.1)))
                        + seq![(i as int, Some(name@))]);
                },
                None => {
                    let ghost rest = data_params(ps, 1);
                    let ghost prefix = fields_view(before).map_values(
                        |p: (int, Seq<char>)| (p.0, Some(p.1)),
                    );
                    let ghost k = prefix.len();
                    assert(ps[i as int] == Some(None::<Seq<char>>));
                    assert(data_params(ps, i as int)[0].1 is None);
                    assert(rest[k as int] == data_params(ps, i as int)[0]);
                    assert(0 <= k < rest.len() && rest[k as int].1 is None);
                    return Err(InstructionError::ParamNotIdent);
                },
            },
        }
        i = i + 1;
    }
    proof {
        let rest = data_params(ps, 1);
        assert(data_params(ps, i as int) =~= Seq::<(int, Option<Seq<char>>)>::empty());
        assert(rest =~= fields_view(data_fields@).map_values(
            |p: (int, Seq<char>)| (p.0, Some(p.1)),
        ));
        assert(rest.map_values(|p: (int, Option<Seq<char>>)| (p.0, p.1->0)) =~= fields_view(
            data_fields@,
        ));
    }
    Ok(InstructionPlan { ctx_ident, data_fields, disc_len })
}

} // verus!
