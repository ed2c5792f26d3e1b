//! The arms of the generated match: one per variant.

use vstd::prelude::*;
use crate::attribute::{declared_spec, validate_attribute, MAX_STATUS_CODE, MIN_STATUS_CODE};
use crate::declaration::{find_block, first_block, Fields, Variant, VariantView};
use crate::error::{GenerationError, GenerationErrorView};
use crate::model::result_view;
use crate::text::{decimal, lemma_numeral_injective, lemma_numeral_len, numeral};

verus! {

/// The number of letters: each of the first fields is bound under a letter.
pub const LETTERS: usize = 26;

/// The name that the field at place `i` is bound to: `param_a` to `param_z`,
/// then `param_26`, `param_27` and so on.
pub open spec fn param_name(i: int) -> Seq<char> {
    if i < LETTERS {
        "param_"@.push((97 + i) as char)
    } else {
        "param_"@ + numeral(i as nat, 10)
    }
}

/// The names that the positional fields of a variant are bound to, one per
/// field and in the order of their declaration; `None` where there is no
/// positional field to bind.
pub open spec fn params_of(fields: Fields) -> Option<Seq<Seq<char>>> {
    match fields {
        Fields::Unnamed(n) => if n > 0 {
            Some(Seq::new(n as nat, |i: int| param_name(i)))
        } else {
            None
        },
        _ => None,
    }
}

/// The bindings of the arm of a variant: the names of its positional fields,
/// and none where it has no such field.
pub open spec fn bindings_of(fields: Fields) -> Seq<Seq<char>> {
    match params_of(fields) {
        Some(params) => params,
        None => Seq::empty(),
    }
}

/// The bindings of one variant are fresh: no two of them share a name,
/// however many there are.
pub proof fn lemma_param_names_distinct(i: int, j: int)
    requires
        0 <= i < j,
    ensures
        param_name(i) != param_name(j),
{
    reveal_strlit("param_");
    let prefix = "param_"@;
    if j < LETTERS {
        assert(param_name(i).last() == (97 + i) as char);
        assert(param_name(j).last() == (97 + j) as char);
    } else {
        let digits = numeral(j as nat, 10);
        lemma_numeral_len(j as nat, 10);
        assert(param_name(j).last() == digits.last());
        if i < LETTERS {
            assert(param_name(i).last() == (97 + i) as char);
        } else {
            if param_name(i) == param_name(j) {
                assert((prefix + numeral(i as nat, 10)).skip(6) =~= numeral(i as nat, 10));
                assert((prefix + digits).skip(6) =~= digits);
                lemma_numeral_injective(i as nat, j as nat, 10);
            }
        }
    }
}

/// The names that the positional fields of a variant are bound to in its
/// match arm, one per field and in the order of their declaration, however
/// many there are. `None` says that there is no positional field to bind: the
/// variant is a unit, has empty round brackets, or has named fields.
pub fn retrieve_params(fields: &Fields) -> (r: Option<Vec<String>>)
    ensures
        r.deep_view() == params_of(*fields),
{
    match fields {
        Fields::Unnamed(n) => {
            if *n == 0 {
                return None;
            }
            let mut params: Vec<String> = Vec::new();
            let mut i: usize = 0;
            while i < *n
                invariant
                    i <= *n,
                    params.len() == i,
                    forall|k: int| 0 <= k < i ==> (#[trigger] params[k])@ == param_name(k),
                decreases *n - i,
            {
                let mut name = "param_".to_owned();
                if i < LETTERS {
                    name.push((97 + i as u8) as char);
                } else {
                    name.append(decimal(i as u64).as_str());
                }
                params.push(name);
                i += 1;
            }
            assert(params.deep_view() =~= Seq::new(*n as nat, |i: int| param_name(i)));
            Some(params)
        },
        _ => None,
    }
}

/// One arm of the generated match: the variant it matches, the names its
/// fields are bound to, and the status code and message template of its
/// response.
#[derive(Debug, PartialEq, Eq)]
pub struct MatchArm {
    pub variant: String,
    pub params: Vec<String>,
    pub code: u16,
    pub msg: String,
}

/// The mathematical value of a [`MatchArm`].
pub struct MatchArmView {
    pub variant: Seq<char>,
    pub params: Seq<Seq<char>>,
    pub code: u16,
    pub msg: Seq<char>,
}

impl View for MatchArm {
    type V = MatchArmView;

    open spec fn view(&self) -> MatchArmView {
        MatchArmView {
            variant: self.variant@,
            params: self.params.deep_view(),
            code: self.code,
            msg: self.msg@,
        }
    }
}

impl DeepView for MatchArm {
    type V = MatchArmView;

    open spec fn deep_view(&self) -> MatchArmView {
        self@
    }
}

impl MatchArmView {
    /// The code is a status code, and the fields are bound to their names in
    /// their order.
    pub open spec fn wf(self) -> bool {
        &&& MIN_STATUS_CODE <= self.code <= MAX_STATUS_CODE
        &&& forall|i: int| 0 <= i < self.params.len() ==> self.params[i] == param_name(i)
    }
}

/// The arm of one variant. Its first `error(..)` attribute gives the status
/// code and the template, and its positional fields give the bindings; a
/// variant without such an attribute, with an attribute that departs from
/// the grammar, or with named fields stops generation, in this order.
pub open spec fn arm_of(variant: VariantView) -> Result<MatchArmView, GenerationErrorView> {
    match first_block(variant.attrs, "error"@) {
        None => Err(GenerationErrorView::MissingErrorSpec { variant: variant.ident }),
        Some(i) => match declared_spec(variant.attrs[i].tokens) {
            Err(e) => Err(e),
            Ok(spec) => if variant.fields is Named {
                Err(GenerationErrorView::UnsupportedVariantShape { variant: variant.ident })
            } else {
                Ok(
                    MatchArmView {
                        variant: variant.ident,
                        params: bindings_of(variant.fields),
                        code: spec.code,
                        msg: spec.msg,
                    },
                )
            },
        },
    }
}

/// The arms of all variants, in the order of their declaration, or the error
/// of the first variant that has one.
pub open spec fn arms_of(variants: Seq<VariantView>) -> Result<
    Seq<MatchArmView>,
    GenerationErrorView,
>
    decreases variants.len(),
{
    if variants.len() == 0 {
        Ok(Seq::empty())
    } else {
        match arm_of(variants[0]) {
            Err(e) => Err(e),
            Ok(arm) => match arms_of(variants.skip(1)) {
                Err(e) => Err(e),
                Ok(rest) => Ok(seq![arm] + rest),
            },
        }
    }
}

/// Whether the variant at place `i` is the first that cannot have its arm.
pub open spec fn first_fault(variants: Seq<VariantView>, i: int) -> bool {
    &&& 0 <= i < variants.len()
    &&& arm_of(variants[i]) is Err
    &&& forall|j: int| 0 <= j < i ==> arm_of(#[trigger] variants[j]) is Ok
}

/// Arms are built for all variants or for none: where every variant can have
/// its arm, the arms are those of the variants, place by place; else the
/// error is that of the first variant at fault.
pub proof fn lemma_arms_all_or_none(variants: Seq<VariantView>)
    ensures
        match arms_of(variants) {
            Ok(arms) => arms.len() == variants.len() && forall|i: int|
                0 <= i < variants.len() ==> arm_of(#[trigger] variants[i]) == Ok::<
                    MatchArmView,
                    GenerationErrorView,
                >(arms[i]),
            Err(e) => exists|i: int|
                first_fault(variants, i) && arm_of(variants[i]) == Err::<
                    MatchArmView,
                    GenerationErrorView,
                >(e),
        },
    decreases variants.len(),
{
    if variants.len() > 0 {
        let rest = variants.skip(1);
        lemma_arms_all_or_none(rest);
        assert forall|j: int| 0 < j < variants.len() implies #[trigger] variants[j] == rest[j
            - 1] by {}
        match arm_of(variants[0]) {
            Err(e) => {
                assert(first_fault(variants, 0));
            },
            Ok(arm) => match arms_of(rest) {
                Ok(arms) => {},
                Err(e) => {
                    let i = choose|i: int|
                        first_fault(rest, i) && arm_of(rest[i]) == Err::<
                            MatchArmView,
                            GenerationErrorView,
                        >(e);
                    assert(variants[i + 1] == rest[i]);
                    assert forall|j: int| 0 <= j < i + 1 implies arm_of(
                        #[trigger] variants[j],
                    ) is Ok by {
                        if j > 0 {
                            assert(variants[j] == rest[j - 1]);
                        }
                    }
                    assert(first_fault(variants, i + 1));
                },
            },
        }
    }
}

/// The arm of one variant.
pub fn match_arm(variant: &Variant) -> (r: Result<MatchArm, GenerationError>)
    ensures
        result_view(r) == arm_of(variant@),
        r matches Ok(arm) ==> arm@.wf(),
{
    let at = match find_block(&variant.attrs, "error") {
        Some(i) => i,
        None => {
            return Err(GenerationError::MissingErrorSpec { variant: variant.ident.clone() });
        },
    };
    let spec = match validate_attribute(&variant.attrs[at].tokens) {
        Ok(spec) => spec,
        Err(e) => {
            return Err(e);
        },
    };
    if let Fields::Named = variant.fields {
        return Err(GenerationError::UnsupportedVariantShape { variant: variant.ident.clone() });
    }
    let params = match retrieve_params(&variant.fields) {
        Some(params) => params,
        None => {
            let none: Vec<String> = Vec::new();
            assert(none.deep_view() =~= Seq::empty());
            none
        },
    };
    Ok(MatchArm { variant: variant.ident.clone(), params, code: spec.code, msg: spec.msg })
}

/// Builds the arms of the generated match, one per variant and in the order
/// of their declaration. The first variant that cannot have its arm stops
/// generation with its error.
pub fn match_error(variants: &Vec<Variant>) -> (r: Result<Vec<MatchArm>, GenerationError>)
    ensures
        result_view(r) == arms_of(variants.deep_view()),
        r matches Ok(arms) ==> forall|i: int| 0 <= i < arms.len() ==> (#[trigger] arms[i])@.wf(),
{
    let ghost all = variants.deep_view();
    let mut arms: Vec<MatchArm> = Vec::new();
    let mut i: usize = 0;
    assert(all.skip(0) == all);
    assert(Seq::<MatchArmView>::empty() + arms_of(all)->Ok_0 =~= arms_of(all)->Ok_0);
    while i < variants.len()
        invariant
            i <= variants.len(),
            arms.len() == i,
            forall|k: int| 0 <= k < i ==> (#[trigger] arms[k])@.wf(),
            all == variants.deep_view(),
            arms_of(all) == match arms_of(all.skip(i as int)) {
                Err(e) => Err(e),
                Ok(rest) => Ok(arms.deep_view() + rest),
            },
        decreases variants.len() - i,
    {
        let ghost before = arms.deep_view();
        proof {
            assert(all.skip(i as int)[0] == variants[i as int]@);
            assert(all.skip(i as int).skip(1) == all.skip(i + 1));
        }
        match match_arm(&variants[i]) {
            Ok(arm) => {
                arms.push(arm);
            },
            Err(e) => {
                return Err(e);
            },
        }
        proof {
            assert(arms.deep_view() =~= before.push(arms[i as int]@));
            if let Ok(rest) = arms_of(all.skip(i + 1)) {
                assert(before + (seq![arms[i as int]@] + rest) =~= arms.deep_view() + rest);
            }
        }
        i += 1;
    }
    proof {
        assert(all.skip(i as int).len() == 0);
        assert(arms.deep_view() + Seq::<MatchArmView>::empty() =~= arms.deep_view());
    }
    Ok(arms)
}

} // verus!
