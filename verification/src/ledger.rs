//! Ledger entry sizes: estimated sizes of `#[contracttype]` structs and
//! enums, compared with the ledger entry limit.
use vstd::prelude::*;
use crate::parse::{parse_file, parsed_file};
use crate::analyzer::Analyzer;
use crate::findings::{SizeWarning, SizeWarningLevel, SizeWarningView};
use crate::syntax::{
    has_contracttype, spec_has_contracttype, ExprNode, GenericArg, ItemNode, LitNode, SegmentNode,
    SegmentArgs, SourceFile, TypeNode, VariantNode,
};
use crate::text::same_text;

verus! {

/// `v` as a size when it fits in `usize`; `None` when computing it
/// overflows.
pub open spec fn fit(v: nat) -> Option<nat> {
    if v <= usize::MAX {
        Some(v as nat)
    } else {
        None
    }
}

/// An exec size as a mathematical one.
pub open spec fn opt_nat(o: Option<usize>) -> Option<nat> {
    match o {
        Some(x) => Some(x as nat),
        None => None,
    }
}

/// Estimated serialized size of a type, in bytes; `None` when the estimate
/// overflows `usize`.  Paths are sized by their last segment; an array of
/// integer-literal length `n` is `n` times its element; an array of any
/// other length is 64; any other type is 8.
pub open spec fn type_size(t: TypeNode) -> Option<nat>
    decreases t,
{
    match t {
        TypeNode::Path { qself, path } => if path.segments@.len() == 0 {
            Some(8)
        } else {
            segment_size(path.segments@.last())
        },
        TypeNode::Array { elem, len } => match *len {
            ExprNode::Lit(LitNode::Int { value: Some(n) }) => match type_size(*elem) {
                Some(s) => fit((n * s) as nat),
                None => None,
            },
            _ => Some(64),
        },
        TypeNode::Other(_) => Some(8),
    }
}

/// Estimated size of a type named by a path segment: 4 for `u32`, `i32`,
/// `bool`; 8 for `u64`, `i64`; 16 for `u128`, `i128`, `I128`, `U128`; 32 for
/// `Address`; 64 for `Bytes`, `BytesN`, `String`, `Symbol`; `8 + T` for
/// `Vec<T>` (else 128); `16 + 2 * (sum of the type arguments)` for a `Map`
/// whose type arguments sum to more than 0 (else 128); `1 + T` for
/// `Option<T>` (else 32); 32 for any other name.
pub open spec fn segment_size(seg: SegmentNode) -> Option<nat>
    decreases seg,
{
    let id = seg.ident@;
    if id == "u32"@ || id == "i32"@ || id == "bool"@ {
        Some(4)
    } else if id == "u64"@ || id == "i64"@ {
        Some(8)
    } else if id == "u128"@ || id == "i128"@ || id == "I128"@ || id == "U128"@ {
        Some(16)
    } else if id == "Address"@ {
        Some(32)
    } else if id == "Bytes"@ || id == "BytesN"@ || id == "String"@ || id == "Symbol"@ {
        Some(64)
    } else if id == "Vec"@ {
        match seg.args {
            SegmentArgs::Angle(a) => if a@.len() > 0 && a@[0] is Type {
                match type_size(a@[0]->Type_0) {
                    Some(s) => fit(8 + s),
                    None => None,
                }
            } else {
                Some(128)
            },
            _ => Some(128),
        }
    } else if id == "Map"@ {
        match seg.args {
            SegmentArgs::Angle(a) => match type_args_size(a@) {
                Some(sum) => if sum > 0 {
                    fit(16 + sum * 2)
                } else {
                    Some(128)
                },
                None => None,
            },
            _ => Some(128),
        }
    } else if id == "Option"@ {
        match seg.args {
            SegmentArgs::Angle(a) => if a@.len() > 0 && a@[0] is Type {
                match type_size(a@[0]->Type_0) {
                    Some(s) => fit(1 + s),
                    None => None,
                }
            } else {
                Some(32)
            },
            _ => Some(32),
        }
    } else {
        Some(32)
    }
}

/// Sum of the sizes of the type arguments among `args`.
pub open spec fn type_args_size(args: Seq<GenericArg>) -> Option<nat>
    decreases args,
{
    if args.len() == 0 {
        Some(0)
    } else {
        match type_args_size(args.drop_last()) {
            Some(prev) => match args.last() {
                GenericArg::Type(t) => match type_size(t) {
                    Some(x) => fit(prev + x),
                    None => None,
                },
                GenericArg::Other(_) => Some(prev),
            },
            None => None,
        }
    }
}

/// Sum of the sizes of a list of field types.
pub open spec fn fields_size(fields: Seq<TypeNode>) -> Option<nat>
    decreases fields.len(),
{
    if fields.len() == 0 {
        Some(0)
    } else {
        match fields_size(fields.drop_last()) {
            Some(prev) => match type_size(fields.last()) {
                Some(x) => fit(prev + x),
                None => None,
            },
            None => None,
        }
    }
}

/// The largest variant size of an enum.
pub open spec fn variants_max_size(vs: Seq<VariantNode>) -> Option<nat>
    decreases vs.len(),
{
    if vs.len() == 0 {
        Some(0)
    } else {
        match (variants_max_size(vs.drop_last()), fields_size(vs.last().fields@)) {
            (Some(m), Some(x)) => Some(if m >= x { m } else { x }),
            _ => None,
        }
    }
}

/// Estimated size of an enum: a 4-byte discriminant plus its largest
/// variant.
pub open spec fn enum_size(vs: Seq<VariantNode>) -> Option<nat> {
    match variants_max_size(vs) {
        Some(m) => fit(4 + m),
        None => None,
    }
}

/// The size of an enum's largest variant is the maximum of its variants'
/// sizes, whatever their order: it is no smaller than any variant's size,
/// it is the size of some variant (or 0 without variants), and it is
/// `None` exactly when some variant's size overflows.
pub proof fn largest_variant_is_maximum(vs: Seq<VariantNode>)
    ensures
        (variants_max_size(vs) is None) <==> exists|i: int|
            0 <= i < vs.len() && #[trigger] fields_size(vs[i].fields@) is None,
        variants_max_size(vs) matches Some(m) ==> {
            &&& forall|i: int|
                0 <= i < vs.len() ==> ((#[trigger] fields_size(vs[i].fields@)) matches Some(x) && x
                    <= m)
            &&& (vs.len() == 0 ==> m == 0)
            &&& (vs.len() > 0 ==> exists|i: int|
                0 <= i < vs.len() && #[trigger] fields_size(vs[i].fields@) == Some(m))
        },
    decreases vs.len(),
{
    if vs.len() > 0 {
        let init = vs.drop_last();
        largest_variant_is_maximum(init);
        let n = vs.len() - 1;
        assert forall|i: int| 0 <= i < init.len() implies #[trigger] init[i] == vs[i] by {}
        assert(vs.last() == vs[n]);
        if variants_max_size(vs) is None {
            if !(fields_size(vs[n].fields@) is None) {
                let i = choose|i: int| 0 <= i < init.len() && #[trigger] fields_size(init[i].fields@) is None;
                assert(fields_size(vs[i].fields@) is None);
            }
        } else {
            assert forall|i: int| 0 <= i < vs.len() implies !(#[trigger] fields_size(vs[i].fields@) is None) by {
                if i < n {
                    assert(init[i] == vs[i]);
                }
            }
            let m = variants_max_size(vs).unwrap();
            assert forall|i: int| 0 <= i < vs.len() implies ((#[trigger] fields_size(vs[i].fields@)) matches Some(x)
                && x <= m) by {
                if i < n {
                    assert(init[i] == vs[i]);
                    assert(fields_size(init[i].fields@) is Some);
                }
            }
            let pm = variants_max_size(init).unwrap();
            if init.len() > 0 {
                let j = choose|j: int| 0 <= j < init.len() && #[trigger] fields_size(init[j].fields@) == Some(pm);
                assert(init[j] == vs[j]);
                if m == pm {
                    assert(fields_size(vs[j].fields@) == Some(m));
                } else {
                    assert(fields_size(vs[n].fields@) == Some(m));
                }
            } else {
                assert(fields_size(vs[n].fields@) == Some(m));
            }
        }
    }
}

/// An enum is estimated at 4 bytes for its discriminant plus at least the
/// size of each of its variants (exactly 4 plus the largest).
pub proof fn enum_covers_every_variant(vs: Seq<VariantNode>, i: int)
    requires
        0 <= i < vs.len(),
        enum_size(vs) is Some,
    ensures
        (fields_size(vs[i].fields@) matches Some(x) && 4 + x <= enum_size(vs).unwrap()),
{
    largest_variant_is_maximum(vs);
    assert(fields_size(vs[i].fields@) is Some);
}

/// How a size compares with the limit: over `limit`, or over `approaching`
/// (or, in strict mode, over `strict_threshold`), or neither.
pub open spec fn spec_classify_size(
    size: nat,
    limit: nat,
    approaching: nat,
    strict: bool,
    strict_threshold: nat,
) -> Option<SizeWarningLevel> {
    if size > limit {
        Some(SizeWarningLevel::ExceedsLimit)
    } else if size > approaching || (strict && size > strict_threshold) {
        Some(SizeWarningLevel::ApproachingLimit)
    } else {
        None
    }
}

/// How the size of `size` bytes compares with the ledger limit.
pub fn classify_size(
    size: usize,
    limit: usize,
    approaching: usize,
    strict: bool,
    strict_threshold: usize,
) -> (r: Option<SizeWarningLevel>)
    ensures
        r == spec_classify_size(
            size as nat,
            limit as nat,
            approaching as nat,
            strict,
            strict_threshold as nat,
        ),
{
    if size > limit {
        Some(SizeWarningLevel::ExceedsLimit)
    } else if size > approaching || (strict && size > strict_threshold) {
        Some(SizeWarningLevel::ApproachingLimit)
    } else {
        None
    }
}

/// For a `#[contracttype]` struct or enum, its name and estimated size;
/// `None` for any other item.
pub open spec fn contract_entry(it: ItemNode) -> Option<(Seq<char>, Option<nat>)> {
    match it {
        ItemNode::Struct { attrs, name, generics, fields } => if spec_has_contracttype(attrs@) {
            Some((name@, fields_size(fields@)))
        } else {
            None
        },
        ItemNode::Enum { attrs, name, generics, variants } => if spec_has_contracttype(attrs@) {
            Some((name@, enum_size(variants@)))
        } else {
            None
        },
        _ => None,
    }
}

/// Whether every contract type's size estimate fits in `usize`.
pub open spec fn all_sizes_fit(items: Seq<ItemNode>) -> bool {
    forall|i: int|
        0 <= i < items.len() ==> !(#[trigger] contract_entry(items[i]) matches Some((_, None)))
}

/// The warnings for the contract types among `items`, in order.
pub open spec fn size_warnings(
    items: Seq<ItemNode>,
    limit: nat,
    approaching: nat,
    strict: bool,
) -> Seq<SizeWarningView>
    decreases items.len(),
{
    if items.len() == 0 {
        seq![]
    } else {
        size_warnings(items.drop_last(), limit, approaching, strict) + match contract_entry(
            items.last(),
        ) {
            Some((name, Some(size))) => match spec_classify_size(
                size,
                limit,
                approaching,
                strict,
                limit / 2,
            ) {
                Some(level) => seq![
                    SizeWarningView { struct_name: name, estimated_size: size, limit, level },
                ],
                None => seq![],
            },
            _ => seq![],
        }
    }
}

/// What the ledger-size analysis reports: the warnings when every estimate
/// fits in `usize`, and none when an estimate overflows.
pub open spec fn ledger_report(
    items: Seq<ItemNode>,
    limit: nat,
    approaching: nat,
    strict: bool,
) -> Seq<SizeWarningView> {
    if all_sizes_fit(items) {
        size_warnings(items, limit, approaching, strict)
    } else {
        seq![]
    }
}

/// Whether a warning agrees with the thresholds it was reported against:
/// it is `ExceedsLimit` exactly when the size is over the limit, and an
/// `ApproachingLimit` size is over `approaching` or, in strict mode, over
/// half the limit.
pub open spec fn warning_fits_thresholds(
    w: SizeWarningView,
    limit: nat,
    approaching: nat,
    strict: bool,
) -> bool {
    &&& w.limit == limit
    &&& (w.level == SizeWarningLevel::ExceedsLimit) == (w.estimated_size > limit)
    &&& w.level == SizeWarningLevel::ApproachingLimit ==> (w.estimated_size > approaching || (strict
        && w.estimated_size > limit / 2))
}

proof fn lemma_size_warnings_fit(items: Seq<ItemNode>, limit: nat, approaching: nat, strict: bool)
    ensures
        forall|k: int|
            0 <= k < size_warnings(items, limit, approaching, strict).len()
                ==> warning_fits_thresholds(
                #[trigger] size_warnings(items, limit, approaching, strict)[k],
                limit,
                approaching,
                strict,
            ),
    decreases items.len(),
{
    if items.len() > 0 {
        lemma_size_warnings_fit(items.drop_last(), limit, approaching, strict);
        let prev = size_warnings(items.drop_last(), limit, approaching, strict);
        let all = size_warnings(items, limit, approaching, strict);
        assert forall|k: int| 0 <= k < all.len() implies warning_fits_thresholds(
            #[trigger] all[k],
            limit,
            approaching,
            strict,
        ) by {
            if k < prev.len() {
                assert(all[k] == prev[k]);
            }
        }
    }
}

/// Every warning of the ledger-size analysis agrees with the thresholds: it
/// says `ExceedsLimit` exactly for sizes over the limit, and
/// `ApproachingLimit` only for sizes over the approaching threshold (or,
/// in strict mode, over half the limit).
pub proof fn ledger_warnings_fit_thresholds(
    items: Seq<ItemNode>,
    limit: nat,
    approaching: nat,
    strict: bool,
)
    ensures
        forall|k: int|
            0 <= k < ledger_report(items, limit, approaching, strict).len()
                ==> warning_fits_thresholds(
                #[trigger] ledger_report(items, limit, approaching, strict)[k],
                limit,
                approaching,
                strict,
            ),
{
    lemma_size_warnings_fit(items, limit, approaching, strict);
}

/// The plain content of a list of warnings.
pub open spec fn warning_views(v: Seq<SizeWarning>) -> Seq<SizeWarningView> {
    v.map_values(|w: SizeWarning| w@)
}

impl Analyzer {
    /// Ledger-size warnings for the Rust source `source`, with `approaching`
    /// as the size above which an entry is approaching the limit: those of
    /// `analyze_ledger_size_file` on the parsed file; none when the text
    /// does not parse.
    pub fn analyze_ledger_size(&self, source: &str, approaching: usize) -> (warnings: Vec<SizeWarning>)
        ensures
            match parsed_file(source@) {
                Some(f) => warning_views(warnings@) == ledger_report(
                    f.items@,
                    self.config.ledger_limit as nat,
                    approaching as nat,
                    self.config.strict_mode,
                ),
                None => warnings@.len() == 0,
            },
    {
        match parse_file(source) {
            Some(file) => self.analyze_ledger_size_file(&file, approaching),
            None => Vec::new(),
        }
    }

    /// Warnings for the `#[contracttype]` structs and enums at the top level
    /// of `file` whose estimated size exceeds the configured ledger limit, or
    /// exceeds `approaching` (or, in strict mode, half the limit).  When an
    /// estimate overflows `usize`, nothing is reported.
    pub fn analyze_ledger_size_file(&self, file: &SourceFile, approaching: usize) -> (warnings: Vec<
        SizeWarning,
    >)
        ensures
            warning_views(warnings@) == ledger_report(
                file.items@,
                self.config.ledger_limit as nat,
                approaching as nat,
                self.config.strict_mode,
            ),
    {
        let mut warnings: Vec<SizeWarning> = Vec::new();
        let limit = self.config.ledger_limit;
        let strict = self.config.strict_mode;
        let strict_threshold = limit / 2;
        let ghost items = file.items@;
        let mut i: usize = 0;
        while i < file.items.len()
            invariant
                i <= items.len(),
                items == file.items@,
                limit == self.config.ledger_limit,
                strict == self.config.strict_mode,
                strict_threshold == limit / 2,
                all_sizes_fit(items.take(i as int)),
                warning_views(warnings@) == size_warnings(
                    items.take(i as int),
                    limit as nat,
                    approaching as nat,
                    strict,
                ),
            decreases file.items.len() - i,
        {
            assert(items.take(i + 1).drop_last() =~= items.take(i as int));
            assert(items.take(i + 1).last() == items[i as int]);
            let entry: Option<(&String, Option<usize>)> = match &file.items[i] {
                ItemNode::Struct { attrs, name, generics, fields } => {
                    if has_contracttype(attrs) {
                        let sz = self.estimate_struct_size(fields);
                        assert(contract_entry(items[i as int]) == Some((name@, opt_nat(sz))));
                        Some((name, sz))
                    } else {
                        None
                    }
                },
                ItemNode::Enum { attrs, name, generics, variants } => {
                    if has_contracttype(attrs) {
                        let sz = self.estimate_enum_size(variants);
                        assert(contract_entry(items[i as int]) == Some((name@, opt_nat(sz))));
                        Some((name, sz))
                    } else {
                        None
                    }
                },
                _ => None,
            };
            assert(match entry {
                Some((n, sz)) => contract_entry(items[i as int]) == Some((n@, opt_nat(sz))),
                None => contract_entry(items[i as int]) is None,
            });
            match entry {
                Some((name, None)) => {
                    assert(contract_entry(items[i as int]) matches Some((_, None)));
                    assert(!all_sizes_fit(items));
                    return Vec::new();
                },
                Some((name, Some(size))) => {
                    if let Some(level) = classify_size(
                        size,
                        limit,
                        approaching,
                        strict,
                        strict_threshold,
                    ) {
                        let ghost w0 = warnings@;
                        warnings.push(
                            SizeWarning { struct_name: name.clone(), estimated_size: size, limit, level },
                        );
                        assert(warning_views(warnings@) =~= warning_views(w0).push(warnings@.last()@));
                    }
                },
                None => {},
            }
            assert(all_sizes_fit(items.take(i + 1))) by {
                assert forall|k: int| 0 <= k < i + 1 implies !(#[trigger] contract_entry(
                    items.take(i + 1)[k],
                ) matches Some((_, None))) by {
                    if k < i {
                        assert(items.take(i + 1)[k] == items.take(i as int)[k]);
                    }
                }
            }
            i += 1;
        }
        assert(items.take(items.len() as int) =~= items);
        warnings
    }

    /// Estimated size of a struct: the sum of its field sizes.
    fn estimate_struct_size(&self, fields: &Vec<TypeNode>) -> (r: Option<usize>)
        ensures
            opt_nat(r) == fields_size(fields@),
    {
        let mut total: Option<usize> = Some(0);
        let mut i: usize = 0;
        while i < fields.len()
            invariant
                i <= fields@.len(),
                opt_nat(total) == fields_size(fields@.take(i as int)),
            decreases fields.len() - i,
        {
            assert(fields@.take(i + 1).drop_last() =~= fields@.take(i as int));
            assert(fields@.take(i + 1).last() == fields@[i as int]);
            total = match (total, self.estimate_type_size(&fields[i])) {
                (Some(t), Some(s)) => t.checked_add(s),
                _ => None,
            };
            i += 1;
        }
        assert(fields@.take(fields@.len() as int) =~= fields@);
        total
    }

    /// Estimated size of an enum: a 4-byte discriminant plus the largest
    /// variant.
    fn estimate_enum_size(&self, variants: &Vec<VariantNode>) -> (r: Option<usize>)
        ensures
            opt_nat(r) == enum_size(variants@),
    {
        let mut max_variant: Option<usize> = Some(0);
        let mut i: usize = 0;
        while i < variants.len()
            invariant
                i <= variants@.len(),
                opt_nat(max_variant) == variants_max_size(variants@.take(i as int)),
            decreases variants.len() - i,
        {
            assert(variants@.take(i + 1).drop_last() =~= variants@.take(i as int));
            assert(variants@.take(i + 1).last() == variants@[i as int]);
            let variant_size = self.estimate_struct_size(&variants[i].fields);
            max_variant = match (max_variant, variant_size) {
                (Some(m), Some(x)) => Some(if m >= x { m } else { x }),
                _ => None,
            };
            i += 1;
        }
        assert(variants@.take(variants@.len() as int) =~= variants@);
        match max_variant {
            Some(m) => m.checked_add(4),
            None => None,
        }
    }

    /// Estimated size of a type.
    fn estimate_type_size(&self, ty: &TypeNode) -> (r: Option<usize>)
        ensures
            opt_nat(r) == type_size(*ty),
        decreases ty,
    {
        match ty {
            TypeNode::Path { qself, path } => {
                if path.segments.len() == 0 {
                    Some(8)
                } else {
                    let seg = &path.segments[path.segments.len() - 1];
                    assert(decreases_to!(*ty => path.segments@.last()));
                    self.estimate_segment_size(seg)
                }
            },
            TypeNode::Array { elem, len } => {
                match &**len {
                    ExprNode::Lit(LitNode::Int { value: Some(n) }) => {
                        match self.estimate_type_size(elem) {
                            Some(s) => n.checked_mul(s),
                            None => None,
                        }
                    },
                    _ => Some(64),
                }
            },
            TypeNode::Other(_) => Some(8),
        }
    }

    /// Estimated size of a type named by a path segment.
    #[verifier::loop_isolation(false)]
    fn estimate_segment_size(&self, seg: &SegmentNode) -> (r: Option<usize>)
        ensures
            opt_nat(r) == segment_size(*seg),
        decreases seg,
    {
        let id = seg.ident.as_str();
        if same_text(id, "u32") || same_text(id, "i32") || same_text(id, "bool") {
            Some(4)
        } else if same_text(id, "u64") || same_text(id, "i64") {
            Some(8)
        } else if same_text(id, "u128") || same_text(id, "i128") || same_text(id, "I128")
            || same_text(id, "U128") {
            Some(16)
        } else if same_text(id, "Address") {
            Some(32)
        } else if same_text(id, "Bytes") || same_text(id, "BytesN") || same_text(id, "String")
            || same_text(id, "Symbol") {
            Some(64)
        } else if same_text(id, "Vec") {
            match &seg.args {
                SegmentArgs::Angle(a) => {
                    if a.len() > 0 {
                        match &a[0] {
                            GenericArg::Type(inner) => {
                                assert(decreases_to!(*seg => a@[0]));
                                match self.estimate_type_size(inner) {
                                    Some(s) => s.checked_add(8),
                                    None => None,
                                }
                            },
                            GenericArg::Other(_) => Some(128),
                        }
                    } else {
                        Some(128)
                    }
                },
                _ => Some(128),
            }
        } else if same_text(id, "Map") {
            match &seg.args {
                SegmentArgs::Angle(a) => {
                    let mut inner: Option<usize> = Some(0);
                    let mut i: usize = 0;
                    while i < a.len()
                        invariant
                            i <= a@.len(),
                            seg.args == SegmentArgs::Angle(*a),
                            opt_nat(inner) == type_args_size(a@.take(i as int)),
                        decreases a.len() - i,
                    {
                        assert(a@.take(i + 1).drop_last() =~= a@.take(i as int));
                        assert(a@.take(i + 1).last() == a@[i as int]);
                        match &a[i] {
                            GenericArg::Type(t) => {
                                assert(decreases_to!(*seg => a@[i as int]));
                                inner = match (inner, self.estimate_type_size(t)) {
                                    (Some(p), Some(x)) => p.checked_add(x),
                                    _ => None,
                                };
                            },
                            GenericArg::Other(_) => {},
                        }
                        i += 1;
                    }
                    assert(a@.take(a@.len() as int) =~= a@);
                    match inner {
                        Some(sum) => {
                            if sum > 0 {
                                match sum.checked_mul(2) {
                                    Some(d) => d.checked_add(16),
                                    None => None,
                                }
                            } else {
                                Some(128)
                            }
                        },
                        None => None,
                    }
                },
                _ => Some(128),
            }
        } else if same_text(id, "Option") {
            match &seg.args {
                SegmentArgs::Angle(a) => {
                    if a.len() > 0 {
                        match &a[0] {
                            GenericArg::Type(inner) => {
                                assert(decreases_to!(*seg => a@[0]));
                                match self.estimate_type_size(inner) {
                                    Some(s) => s.checked_add(1),
                                    None => None,
                                }
                            },
                            GenericArg::Other(_) => Some(32),
                        }
                    } else {
                        Some(32)
                    }
                },
                _ => Some(32),
            }
        } else {
            Some(32)
        }
    }
}

} // verus!
