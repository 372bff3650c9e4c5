//! The analyzer: its configuration and the analyses that need no syntax
//! tree.
use vstd::prelude::*;
use crate::parse::{parse_file, parsed_file};
use crate::config::SanctifyConfig;
use crate::findings::GasEstimation;
use crate::syntax::{BlockNode, FnDef, ImplItemNode, ItemNode, SourceFile};

verus! {

/// The public methods of an impl block.
pub open spec fn public_impl_fns(items: Seq<ImplItemNode>) -> Seq<FnDef>
    decreases items.len(),
{
    if items.len() == 0 {
        seq![]
    } else {
        public_impl_fns(items.drop_last()) + match items.last() {
            ImplItemNode::Fn(f) => if f.is_pub {
                seq![f]
            } else {
                seq![]
            },
            ImplItemNode::Other(_) => seq![],
        }
    }
}

/// The public methods of the impl blocks at the top level of a file.
pub open spec fn public_methods(items: Seq<ItemNode>) -> Seq<FnDef>
    decreases items.len(),
{
    if items.len() == 0 {
        seq![]
    } else {
        public_methods(items.drop_last()) + match items.last() {
            ItemNode::Impl { header, items: impl_items } => public_impl_fns(impl_items@),
            _ => seq![],
        }
    }
}

/// Whether `r` holds one estimate per public method of `fns`, in order:
/// its name, a gas figure that `estimate_gas` can return for its body, and
/// a complexity score of 0.
pub open spec fn gas_estimations_for<F: Fn(&BlockNode) -> u64>(
    fns: Seq<FnDef>,
    estimate_gas: F,
    r: Seq<GasEstimation>,
) -> bool {
    &&& r.len() == fns.len()
    &&& forall|i: int|
        0 <= i < r.len() ==> {
            &&& #[trigger] r[i].function_name@ == fns[i].name@
            &&& r[i].complexity_score == 0
            &&& call_ensures(estimate_gas, (&fns[i].body,), r[i].estimated_gas)
        }
}

/// Runs the analyses with a configuration.
pub struct Analyzer {
    pub config: SanctifyConfig,
}

impl Analyzer {
    /// An analyzer with the given configuration.
    pub fn new(config: SanctifyConfig) -> (a: Self)
        ensures
            a.config == config,
    {
        Analyzer { config }
    }

    /// Gas estimates of the public methods, in top-level impl blocks of the
    /// Rust source `source`, in order; `estimate_gas` gives the estimate of a
    /// body.  None when the text does not parse.
    pub fn scan_gas_estimation<F: Fn(&BlockNode) -> u64>(&self, source: &str, estimate_gas: F) -> (r:
        Vec<GasEstimation>)
        requires
            forall|b: &BlockNode| call_requires(estimate_gas, (b,)),
        ensures
            match parsed_file(source@) {
                Some(f) => gas_estimations_for(public_methods(f.items@), estimate_gas, r@),
                None => r@.len() == 0,
            },
    {
        match parse_file(source) {
            Some(file) => self.scan_gas_estimation_file(&file, estimate_gas),
            None => Vec::new(),
        }
    }

    /// Gas estimates of the public methods, in top-level impl blocks of
    /// `file`, in order; `estimate_gas` gives the estimate of a body.
    pub fn scan_gas_estimation_file<F: Fn(&BlockNode) -> u64>(&self, file: &SourceFile, estimate_gas: F) -> (r:
        Vec<GasEstimation>)
        requires
            forall|b: &BlockNode| call_requires(estimate_gas, (b,)),
        ensures
            gas_estimations_for(public_methods(file.items@), estimate_gas, r@),
    {
        let mut estimations: Vec<GasEstimation> = Vec::new();
        let mut i: usize = 0;
        while i < file.items.len()
            invariant
                i <= file.items@.len(),
                forall|b: &BlockNode| call_requires(estimate_gas, (b,)),
                gas_estimations_for(
                    public_methods(file.items@.take(i as int)),
                    estimate_gas,
                    estimations@,
                ),
            decreases file.items.len() - i,
        {
            assert(file.items@.take(i + 1).drop_last() =~= file.items@.take(i as int));
            if let ItemNode::Impl { header, items } = &file.items[i] {
                let ghost before = public_methods(file.items@.take(i as int));
                let mut j: usize = 0;
                while j < items.len()
                    invariant
                        j <= items@.len(),
                        forall|b: &BlockNode| call_requires(estimate_gas, (b,)),
                        gas_estimations_for(
                            before + public_impl_fns(items@.take(j as int)),
                            estimate_gas,
                            estimations@,
                        ),
                    decreases items.len() - j,
                {
                    assert(items@.take(j + 1).drop_last() =~= items@.take(j as int));
                    let ghost fns0 = before + public_impl_fns(items@.take(j as int));
                    if let ImplItemNode::Fn(f) = &items[j] {
                        if f.is_pub {
                            let gas = estimate_gas(&f.body);
                            estimations.push(
                                GasEstimation {
                                    function_name: f.name.clone(),
                                    estimated_gas: gas,
                                    complexity_score: 0,
                                },
                            );
                            assert(before + public_impl_fns(items@.take(j + 1)) =~= fns0.push(*f));
                        } else {
                            assert(before + public_impl_fns(items@.take(j + 1)) =~= fns0);
                        }
                    } else {
                        assert(before + public_impl_fns(items@.take(j + 1)) =~= fns0);
                    }
                    j += 1;
                }
                assert(items@.take(items@.len() as int) =~= items@);
            } else {
                assert(public_methods(file.items@.take(i + 1)) =~= public_methods(
                    file.items@.take(i as int),
                ));
            }
            i += 1;
        }
        assert(file.items@.take(file.items@.len() as int) =~= file.items@);
        estimations
    }

    /// Storage-key collision check: reports no collision for any key list.
    pub fn check_storage_collisions(&self, _keys: Vec<String>) -> (r: bool)
        ensures
            !r,
    {
        false
    }
}

} // verus!
