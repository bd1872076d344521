use vstd::prelude::*;

use crate::attrib::AttributeType;
use crate::diagnostic::{any_error_from, has_error, Diagnostic, DiagnosticKind};
use crate::layout::{
    lemma_layout_at, lemma_offsets_distinct, layout_valid, offset_at, record_size,
    try_layout, FieldLayout,
};
use crate::schema::{
    count_of, decode_count_and_type, field_diagnostics, field_type, ElementCount, FieldSpec,
    ItemBody, ItemSchema,
};

verus! {

/// An opaque reference to the buffer that holds the records.
#[derive(Clone, Copy, Debug, PartialEq, Eq, Structural)]
pub struct BufferHandle {
    pub id: u64,
}

/// How one field is read from a buffer of records.
#[derive(Clone, Debug, PartialEq, Eq)]
pub struct AttributeDescriptor {
    pub buffer: BufferHandle,
    pub element_count: ElementCount,
    pub element_type: AttributeType,
    pub byte_offset: u64,
    pub byte_stride: u64,
    pub name: String,
}

/// The outcome of a derivation: one descriptor per field, and whether no
/// error was reported.
#[derive(Clone, Debug, PartialEq, Eq)]
pub struct Derivation {
    pub descriptors: Vec<AttributeDescriptor>,
    pub success: bool,
}

/// The layouts of the fields, in order.
pub open spec fn layouts_of(fields: Seq<FieldSpec>) -> Seq<FieldLayout> {
    fields.map_values(|f: FieldSpec| f.layout)
}

/// The item can be derived on: where it is a record, its layout is valid.
pub open spec fn item_valid(item: ItemSchema) -> bool {
    match item.body {
        ItemBody::NamedFields(fields) => layout_valid(layouts_of(fields@)),
        ItemBody::Other => true,
    }
}

/// The descriptor of field `i` of a record.
pub open spec fn descriptor_at(
    fields: Seq<FieldSpec>,
    i: int,
    buffer: BufferHandle,
) -> AttributeDescriptor {
    AttributeDescriptor {
        buffer,
        element_count: count_of(fields[i].shape),
        element_type: field_type(fields[i]),
        byte_offset: offset_at(layouts_of(fields), i) as u64,
        byte_stride: record_size(layouts_of(fields)) as u64,
        name: fields[i].name,
    }
}

/// The diagnostics of all fields, in declaration order.
pub open spec fn fields_diagnostics(fields: Seq<FieldSpec>) -> Seq<Diagnostic>
    decreases fields.len(),
{
    if fields.len() == 0 {
        Seq::empty()
    } else {
        fields_diagnostics(fields.drop_last()) + field_diagnostics(fields.last())
    }
}

/// The diagnostics of a derivation on an item.
pub open spec fn item_diagnostics(item: ItemSchema) -> Seq<Diagnostic> {
    match item.body {
        ItemBody::NamedFields(fields) => fields_diagnostics(fields@),
        ItemBody::Other => seq![
            Diagnostic {
                location: item.location,
                kind: DiagnosticKind::NotARecord { item_name: item.name },
            },
        ],
    }
}

/// The descriptors of one record share its stride, and their offsets follow
/// its sequential, naturally aligned layout: each is a multiple of its
/// field's alignment, no field overlaps the one before it, every field ends
/// within the stride, and where all fields have a positive size no two
/// descriptors share an offset.
pub proof fn lemma_descriptor_layout(fields: Seq<FieldSpec>, buffer: BufferHandle)
    requires
        layout_valid(layouts_of(fields)),
    ensures
        forall|i: int|
            0 <= i < fields.len() ==> {
                &&& (#[trigger] descriptor_at(fields, i, buffer)).byte_stride == record_size(
                    layouts_of(fields),
                )
                &&& descriptor_at(fields, i, buffer).byte_offset % fields[i].layout.align == 0
                &&& descriptor_at(fields, i, buffer).byte_offset + fields[i].layout.size
                    <= descriptor_at(fields, i, buffer).byte_stride
            },
        forall|i: int|
            0 < i < fields.len() ==> descriptor_at(fields, i - 1, buffer).byte_offset + fields[i
                - 1].layout.size <= #[trigger] descriptor_at(fields, i, buffer).byte_offset,
        (forall|k: int| 0 <= k < fields.len() ==> (#[trigger] fields[k]).layout.size > 0) ==> (
        forall|i: int, j: int|
            0 <= i < j < fields.len() ==> descriptor_at(fields, i, buffer).byte_offset
                != descriptor_at(fields, j, buffer).byte_offset),
{
    let ls = layouts_of(fields);
    assert forall|i: int| 0 <= i < fields.len() implies {
        &&& (#[trigger] descriptor_at(fields, i, buffer)).byte_stride == record_size(ls)
        &&& descriptor_at(fields, i, buffer).byte_offset % fields[i].layout.align == 0
        &&& descriptor_at(fields, i, buffer).byte_offset + fields[i].layout.size
            <= descriptor_at(fields, i, buffer).byte_stride
    } by {
        lemma_descriptor_offset(fields, i, buffer);
    }
    assert forall|i: int| 0 < i < fields.len() implies descriptor_at(fields, i - 1, buffer).byte_offset
        + fields[i - 1].layout.size <= #[trigger] descriptor_at(fields, i, buffer).byte_offset by {
        lemma_descriptor_offset(fields, i - 1, buffer);
        lemma_descriptor_offset(fields, i, buffer);
    }
    if forall|k: int| 0 <= k < fields.len() ==> (#[trigger] fields[k]).layout.size > 0 {
        assert forall|k: int| 0 <= k < ls.len() implies (#[trigger] ls[k]).size > 0 by {
            assert(ls[k] == fields[k].layout);
        }
        lemma_offsets_distinct(ls);
        assert forall|i: int, j: int| 0 <= i < j < fields.len() implies descriptor_at(
            fields,
            i,
            buffer,
        ).byte_offset != descriptor_at(fields, j, buffer).byte_offset by {
            lemma_descriptor_offset(fields, i, buffer);
            lemma_descriptor_offset(fields, j, buffer);
        }
    }
}

proof fn lemma_descriptor_offset(fields: Seq<FieldSpec>, i: int, buffer: BufferHandle)
    requires
        layout_valid(layouts_of(fields)),
        0 <= i < fields.len(),
    ensures
        layouts_of(fields)[i] == fields[i].layout,
        descriptor_at(fields, i, buffer).byte_offset == offset_at(layouts_of(fields), i),
        descriptor_at(fields, i, buffer).byte_stride == record_size(layouts_of(fields)),
        offset_at(layouts_of(fields), i) % (fields[i].layout.align as int) == 0,
        offset_at(layouts_of(fields), i) + fields[i].layout.size <= record_size(
            layouts_of(fields),
        ),
        i > 0 ==> offset_at(layouts_of(fields), i - 1) + fields[i - 1].layout.size <= offset_at(
            layouts_of(fields),
            i,
        ),
{
    let ls = layouts_of(fields);
    assert(ls[i] == fields[i].layout);
    lemma_layout_at(ls, i);
    if i > 0 {
        assert(ls[i - 1] == fields[i - 1].layout);
        lemma_layout_at(ls, i - 1);
    }
}

/// The layouts of the fields, in order.
pub fn field_layouts(fields: &Vec<FieldSpec>) -> (r: Vec<FieldLayout>)
    ensures
        r@ == layouts_of(fields@),
{
    let mut r: Vec<FieldLayout> = Vec::new();
    let mut i: usize = 0;
    while i < fields.len()
        invariant
            i <= fields@.len(),
            r@.len() == i,
            forall|k: int| 0 <= k < i ==> r@[k] == fields@[k].layout,
        decreases fields@.len() - i,
    {
        r.push(fields[i].layout);
        i = i + 1;
    }
    assert(r@ =~= layouts_of(fields@));
    r
}

impl ItemSchema {
    /// Whether a vertex format can be derived on this item: a record's
    /// alignments are positive and its size fits in `u64`.
    pub fn is_valid(&self) -> (r: bool)
        ensures
            r == item_valid(*self),
    {
        match &self.body {
            ItemBody::NamedFields(fields) => try_layout(&field_layouts(fields)).is_some(),
            ItemBody::Other => true,
        }
    }
}

/// Derives the vertex attribute descriptors of a record.
///
/// Every field gives one descriptor, in declaration order, all with the
/// given buffer and the record's stride. A field whose type cannot be
/// decoded gives a poisoned descriptor and the fields after it are still
/// decoded. An item that is not a record with named fields gives no
/// descriptors and an error. Diagnostics are appended to `diagnostics`; the
/// derivation succeeds exactly when none of them is an error.
pub fn expand_vertex_format(
    item: &ItemSchema,
    buffer: BufferHandle,
    diagnostics: &mut Vec<Diagnostic>,
) -> (r: Derivation)
    requires
        item_valid(*item),
    ensures
        final(diagnostics)@ == old(diagnostics)@ + item_diagnostics(*item),
        r.success == !has_error(item_diagnostics(*item)),
        match item.body {
            ItemBody::NamedFields(fields) => {
                &&& r.descriptors@.len() == fields@.len()
                &&& forall|i: int|
                    0 <= i < fields@.len() ==> r.descriptors@[i] == descriptor_at(
                        fields@,
                        i,
                        buffer,
                    )
            },
            ItemBody::Other => r.descriptors@.len() == 0,
        },
{
    let start = diagnostics.len();
    let mut descriptors: Vec<AttributeDescriptor> = Vec::new();
    match &item.body {
        ItemBody::NamedFields(fields) => {
            let ghost ls = layouts_of(fields@);
            let (offsets, stride) = match try_layout(&field_layouts(fields)) {
                Some(laid_out) => laid_out,
                None => {
                    return Derivation { descriptors, success: false };
                },
            };
            let mut i: usize = 0;
            assert(fields@.subrange(0, 0) =~= Seq::<FieldSpec>::empty());
            assert(diagnostics@ =~= old(diagnostics)@ + fields_diagnostics(
                fields@.subrange(0, 0),
            ));
            while i < fields.len()
                invariant
                    i <= fields@.len(),
                    start == old(diagnostics)@.len(),
                    ls == layouts_of(fields@),
                    offsets@.len() == fields@.len(),
                    forall|k: int| 0 <= k < fields@.len() ==> offsets@[k] == offset_at(ls, k),
                    stride == record_size(ls),
                    diagnostics@ == old(diagnostics)@ + fields_diagnostics(
                        fields@.subrange(0, i as int),
                    ),
                    descriptors@.len() == i,
                    forall|k: int|
                        0 <= k < i ==> descriptors@[k] == descriptor_at(fields@, k, buffer),
                decreases fields@.len() - i,
            {
                let ghost prefix = fields@.subrange(0, i + 1);
                assert(prefix.drop_last() =~= fields@.subrange(0, i as int));
                let field = &fields[i];
                let (count, ty) = decode_count_and_type(field, diagnostics);
                descriptors.push(
                    AttributeDescriptor {
                        buffer,
                        element_count: count,
                        element_type: ty,
                        byte_offset: offsets[i],
                        byte_stride: stride,
                        name: field.name.clone(),
                    },
                );
                i = i + 1;
                assert(diagnostics@ =~= old(diagnostics)@ + fields_diagnostics(prefix));
            }
            assert(fields@.subrange(0, i as int) =~= fields@);
        },
        ItemBody::Other => {
            diagnostics.push(
                Diagnostic {
                    location: item.location,
                    kind: DiagnosticKind::NotARecord { item_name: item.name.clone() },
                },
            );
        },
    }
    assert(diagnostics@.subrange(start as int, diagnostics@.len() as int) =~= item_diagnostics(
        *item,
    ));
    let success = !any_error_from(diagnostics, start);
    Derivation { descriptors, success }
}

} // verus!
