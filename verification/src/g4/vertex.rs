//! Vertex layouts: the kinds of data a vertex field can hold, and the ordered
//! list of fields that makes up one vertex record.

use vstd::prelude::*;

verus! {

/// The kind of data in one vertex field: a scalar, vector or matrix of one
/// element type, stored as is or normalised on load.
#[allow(non_camel_case_types)]
#[derive(Copy, Clone, Debug, PartialEq, Eq, Structural)]
pub enum VertexData {
    Nothing,
    F32_1X,
    F32_2X,
    F32_3X,
    F32_4X,
    F32_4X4,
    I8_1X,
    U8_1X,
    I8_1xNormalized,
    U8_1xNormalized,
    I8_2X,
    U8_2X,
    I8_2xNormalized,
    U8_2xNormalized,
    I8_4X,
    U8_4X,
    I8_4xNormalized,
    U8_4xNormalized,
    I16_1X,
    U16_1X,
    I16_1xNormalized,
    U16_1xNormalized,
    I16_2X,
    U16_2X,
    I16_2xNormalized,
    U16_2xNormalized,
    I16_4X,
    U16_4X,
    I16_4xNormalized,
    U16_4xNormalized,
    I32_1X,
    U32_1X,
    I32_2X,
    U32_2X,
    I32_3X,
    U32_3X,
    I32_4X,
    U32_4X,
}

impl VertexData {
    /// How many elements the field holds.
    pub open spec fn components(self) -> int {
        match self {
            VertexData::Nothing => 0,
            VertexData::F32_1X
            | VertexData::I8_1X
            | VertexData::U8_1X
            | VertexData::I8_1xNormalized
            | VertexData::U8_1xNormalized
            | VertexData::I16_1X
            | VertexData::U16_1X
            | VertexData::I16_1xNormalized
            | VertexData::U16_1xNormalized
            | VertexData::I32_1X
            | VertexData::U32_1X => 1,
            VertexData::F32_2X
            | VertexData::I8_2X
            | VertexData::U8_2X
            | VertexData::I8_2xNormalized
            | VertexData::U8_2xNormalized
            | VertexData::I16_2X
            | VertexData::U16_2X
            | VertexData::I16_2xNormalized
            | VertexData::U16_2xNormalized
            | VertexData::I32_2X
            | VertexData::U32_2X => 2,
            VertexData::F32_3X
            | VertexData::I32_3X
            | VertexData::U32_3X => 3,
            VertexData::F32_4X
            | VertexData::I8_4X
            | VertexData::U8_4X
            | VertexData::I8_4xNormalized
            | VertexData::U8_4xNormalized
            | VertexData::I16_4X
            | VertexData::U16_4X
            | VertexData::I16_4xNormalized
            | VertexData::U16_4xNormalized
            | VertexData::I32_4X
            | VertexData::U32_4X => 4,
            VertexData::F32_4X4 => 16,
        }
    }

    /// The width in bytes of one element.
    pub open spec fn component_bytes(self) -> int {
        match self {
            VertexData::Nothing => 0,
            VertexData::I8_1X
            | VertexData::U8_1X
            | VertexData::I8_1xNormalized
            | VertexData::U8_1xNormalized
            | VertexData::I8_2X
            | VertexData::U8_2X
            | VertexData::I8_2xNormalized
            | VertexData::U8_2xNormalized
            | VertexData::I8_4X
            | VertexData::U8_4X
            | VertexData::I8_4xNormalized
            | VertexData::U8_4xNormalized => 1,
            VertexData::I16_1X
            | VertexData::U16_1X
            | VertexData::I16_1xNormalized
            | VertexData::U16_1xNormalized
            | VertexData::I16_2X
            | VertexData::U16_2X
            | VertexData::I16_2xNormalized
            | VertexData::U16_2xNormalized
            | VertexData::I16_4X
            | VertexData::U16_4X
            | VertexData::I16_4xNormalized
            | VertexData::U16_4xNormalized => 2,
            VertexData::F32_1X
            | VertexData::F32_2X
            | VertexData::F32_3X
            | VertexData::F32_4X
            | VertexData::F32_4X4
            | VertexData::I32_1X
            | VertexData::U32_1X
            | VertexData::I32_2X
            | VertexData::U32_2X
            | VertexData::I32_3X
            | VertexData::U32_3X
            | VertexData::I32_4X
            | VertexData::U32_4X => 4,
        }
    }

    /// The bytes one field of this kind takes in a vertex record.
    pub open spec fn byte_size(self) -> int {
        self.components() * self.component_bytes()
    }

    /// The native constant that stands for this kind: its position in the
    /// declaration, counted from zero.
    pub open spec fn code(self) -> u32 {
        match self {
            VertexData::Nothing => 0,
            VertexData::F32_1X => 1,
            VertexData::F32_2X => 2,
            VertexData::F32_3X => 3,
            VertexData::F32_4X => 4,
            VertexData::F32_4X4 => 5,
            VertexData::I8_1X => 6,
            VertexData::U8_1X => 7,
            VertexData::I8_1xNormalized => 8,
            VertexData::U8_1xNormalized => 9,
            VertexData::I8_2X => 10,
            VertexData::U8_2X => 11,
            VertexData::I8_2xNormalized => 12,
            VertexData::U8_2xNormalized => 13,
            VertexData::I8_4X => 14,
            VertexData::U8_4X => 15,
            VertexData::I8_4xNormalized => 16,
            VertexData::U8_4xNormalized => 17,
            VertexData::I16_1X => 18,
            VertexData::U16_1X => 19,
            VertexData::I16_1xNormalized => 20,
            VertexData::U16_1xNormalized => 21,
            VertexData::I16_2X => 22,
            VertexData::U16_2X => 23,
            VertexData::I16_2xNormalized => 24,
            VertexData::U16_2xNormalized => 25,
            VertexData::I16_4X => 26,
            VertexData::U16_4X => 27,
            VertexData::I16_4xNormalized => 28,
            VertexData::U16_4xNormalized => 29,
            VertexData::I32_1X => 30,
            VertexData::U32_1X => 31,
            VertexData::I32_2X => 32,
            VertexData::U32_2X => 33,
            VertexData::I32_3X => 34,
            VertexData::U32_3X => 35,
            VertexData::I32_4X => 36,
            VertexData::U32_4X => 37,
        }
    }

    /// The bytes one field of this kind takes in a vertex record.
    pub fn size(&self) -> (bytes: i32)
        ensures
            bytes == self.byte_size(),
            0 <= bytes <= 64,
    {
        match self {
            Self::Nothing => 0,
            Self::F32_1X => 4,
            Self::F32_2X => 8,
            Self::F32_3X => 12,
            Self::F32_4X => 16,
            Self::F32_4X4 => 64,
            Self::I8_1X | Self::U8_1X | Self::I8_1xNormalized | Self::U8_1xNormalized => 1,
            Self::I8_2X | Self::U8_2X | Self::I8_2xNormalized | Self::U8_2xNormalized => 2,
            Self::I8_4X | Self::U8_4X | Self::I8_4xNormalized | Self::U8_4xNormalized => 4,
            Self::I16_1X | Self::U16_1X | Self::I16_1xNormalized | Self::U16_1xNormalized => 2,
            Self::I16_2X | Self::U16_2X | Self::I16_2xNormalized | Self::U16_2xNormalized => 4,
            Self::I16_4X | Self::U16_4X | Self::I16_4xNormalized | Self::U16_4xNormalized => 8,
            Self::I32_1X | Self::U32_1X => 4,
            Self::I32_2X | Self::U32_2X => 8,
            Self::I32_3X | Self::U32_3X => 12,
            Self::I32_4X | Self::U32_4X => 16,
        }
    }

    /// No two kinds share a native constant.
    pub proof fn lemma_code_injective(a: Self, b: Self)
        requires
            a.code() == b.code(),
        ensures
            a == b,
    {
    }

    /// Gives the native constant.
    pub fn into(self) -> (raw: u32)
        ensures
            raw == self.code(),
    {
        match self {
            Self::Nothing => 0,
            Self::F32_1X => 1,
            Self::F32_2X => 2,
            Self::F32_3X => 3,
            Self::F32_4X => 4,
            Self::F32_4X4 => 5,
            Self::I8_1X => 6,
            Self::U8_1X => 7,
            Self::I8_1xNormalized => 8,
            Self::U8_1xNormalized => 9,
            Self::I8_2X => 10,
            Self::U8_2X => 11,
            Self::I8_2xNormalized => 12,
            Self::U8_2xNormalized => 13,
            Self::I8_4X => 14,
            Self::U8_4X => 15,
            Self::I8_4xNormalized => 16,
            Self::U8_4xNormalized => 17,
            Self::I16_1X => 18,
            Self::U16_1X => 19,
            Self::I16_1xNormalized => 20,
            Self::U16_1xNormalized => 21,
            Self::I16_2X => 22,
            Self::U16_2X => 23,
            Self::I16_2xNormalized => 24,
            Self::U16_2xNormalized => 25,
            Self::I16_4X => 26,
            Self::U16_4X => 27,
            Self::I16_4xNormalized => 28,
            Self::U16_4xNormalized => 29,
            Self::I32_1X => 30,
            Self::U32_1X => 31,
            Self::I32_2X => 32,
            Self::U32_2X => 33,
            Self::I32_3X => 34,
            Self::U32_3X => 35,
            Self::I32_4X => 36,
            Self::U32_4X => 37,
        }
    }
}

/// One field of a vertex record, as contracts see it.
pub struct VertexField {
    pub name: Seq<char>,
    pub data: VertexData,
}

/// A vertex layout, as contracts see it: its fields in order, and whether it
/// advances per instance.
pub struct VertexLayout {
    pub fields: Seq<VertexField>,
    pub instanced: bool,
}

/// The bytes of one vertex record: the sizes of its fields, added up.
pub open spec fn stride_of(fields: Seq<VertexField>) -> int
    decreases fields.len(),
{
    if fields.len() == 0 {
        0
    } else {
        stride_of(fields.drop_last()) + fields.last().data.byte_size()
    }
}

/// A name can be handed to the engine if it holds no NUL character.
pub open spec fn name_is_valid(name: Seq<char>) -> bool {
    forall|i: int| 0 <= i < name.len() ==> name[i] != '\0'
}

/// Why a field could not be added to a layout.
#[derive(Copy, Clone, Debug, PartialEq, Eq, Structural)]
pub enum VertexStructureError {
    /// The name holds a NUL character.
    InvalidName,
    /// With the field, one vertex record would take more bytes than an `i32` counts.
    TooLarge,
}

/// One named field of a vertex record.
#[derive(Debug)]
pub struct VertexElement {
    pub name: String,
    pub data: VertexData,
}

impl VertexElement {
    /// The field as contracts see it.
    pub open spec fn view(&self) -> VertexField {
        VertexField { name: self.name@, data: self.data }
    }
}

/// The shape of one vertex record. Built once, never changed.
#[derive(Debug)]
pub struct VertexStructure {
    elements: Vec<VertexElement>,
    instanced: bool,
    stride: i32,
}

impl View for VertexStructure {
    type V = VertexLayout;

    closed spec fn view(&self) -> VertexLayout {
        VertexLayout {
            fields: Seq::new(self.elements@.len(), |i: int| self.elements@[i]@),
            instanced: self.instanced,
        }
    }
}

impl VertexStructure {
    #[verifier::type_invariant]
    spec fn inv(self) -> bool {
        &&& self.stride == stride_of(self@.fields)
        &&& forall|i: int| 0 <= i < self.elements@.len() ==> name_is_valid(#[trigger] self.elements@[i].name@)
    }

    fn new() -> (layout: Self)
        ensures
            layout@.fields.len() == 0,
            !layout@.instanced,
    {
        VertexStructure { elements: Vec::new(), instanced: false, stride: 0 }
    }

    /// The bytes of one vertex record.
    pub fn size(&self) -> (bytes: i32)
        ensures
            bytes == stride_of(self@.fields),
    {
        proof {
            use_type_invariant(self);
        }
        self.stride
    }

    /// Whether the layout advances per instance and not per vertex.
    pub fn instanced(&self) -> (instanced: bool)
        ensures
            instanced == self@.instanced,
    {
        self.instanced
    }

    /// The number of fields.
    pub fn len(&self) -> (n: usize)
        ensures
            n == self@.fields.len(),
    {
        self.elements.len()
    }

    /// The field at `index`.
    pub fn element(&self, index: usize) -> (element: &VertexElement)
        requires
            index < self@.fields.len(),
        ensures
            element@ == self@.fields[index as int],
            name_is_valid(element.name@),
    {
        proof {
            use_type_invariant(self);
        }
        &self.elements[index]
    }
}

impl Clone for VertexStructure {
    fn clone(&self) -> (copy: Self)
        ensures
            copy@ == self@,
    {
        proof {
            use_type_invariant(self);
        }
        let mut elements: Vec<VertexElement> = Vec::new();
        let n: usize = self.elements.len();
        let mut i: usize = 0;
        while i < n
            invariant
                n == self.elements@.len(),
                i <= n,
                elements@.len() == i,
                forall|j: int| 0 <= j < i ==> elements@[j]@ == self.elements@[j]@,
            decreases n - i,
        {
            let e = &self.elements[i];
            elements.push(VertexElement { name: e.name.clone(), data: e.data });
            i += 1;
        }
        proof {
            assert(Seq::new(elements@.len(), |i: int| elements@[i]@) =~= self@.fields);
            assert forall|i: int| 0 <= i < elements@.len() implies name_is_valid(
                #[trigger] elements@[i].name@,
            ) by {
                assert(elements@[i]@ == self.elements@[i]@);
                assert(name_is_valid(self.elements@[i].name@));
            }
        }
        VertexStructure { elements, instanced: self.instanced, stride: self.stride }
    }
}

/// Adding a field adds its size to the stride.
pub proof fn lemma_stride_push(fields: Seq<VertexField>, field: VertexField)
    ensures
        stride_of(fields.push(field)) == stride_of(fields) + field.data.byte_size(),
{
    assert(fields.push(field).drop_last() =~= fields);
}

/// The stride of two runs of fields, one after the other, is the sum of
/// their strides: a stride is the sum of the sizes of the fields, however
/// the fields are grouped.
pub proof fn lemma_stride_concat(first: Seq<VertexField>, second: Seq<VertexField>)
    ensures
        stride_of(first + second) == stride_of(first) + stride_of(second),
    decreases second.len(),
{
    if second.len() == 0 {
        assert(first + second =~= first);
    } else {
        lemma_stride_concat(first, second.drop_last());
        assert((first + second).drop_last() =~= first + second.drop_last());
    }
}

/// A stride is never negative and grows by at most 64 bytes a field.
pub proof fn lemma_stride_bounds(fields: Seq<VertexField>)
    ensures
        0 <= stride_of(fields) <= 64 * fields.len(),
    decreases fields.len(),
{
    if fields.len() > 0 {
        lemma_stride_bounds(fields.drop_last());
    }
}

fn name_has_nul(name: &str) -> (found: bool)
    ensures
        found == !name_is_valid(name@),
{
    let mut found = false;
    for c in it: name.chars()
        invariant
            it.seq() == name@,
            found == exists|j: int| 0 <= j < it.index() && name@[j] == '\0',
    {
        if c == '\0' {
            found = true;
        }
    }
    found
}

/// Collects the fields of a vertex record, in the order they are added.
pub struct VertexStructureBuilder {
    vertex_structure: VertexStructure,
}

impl View for VertexStructureBuilder {
    type V = VertexLayout;

    closed spec fn view(&self) -> VertexLayout {
        self.vertex_structure@
    }
}

impl Default for VertexStructureBuilder {
    fn default() -> (builder: Self)
        ensures
            builder@.fields.len() == 0,
            !builder@.instanced,
    {
        VertexStructureBuilder { vertex_structure: VertexStructure::new() }
    }
}

impl VertexStructureBuilder {
    /// A builder with no fields, not instanced.
    pub fn new() -> (builder: Self)
        ensures
            builder@.fields.len() == 0,
            !builder@.instanced,
    {
        VertexStructureBuilder { vertex_structure: VertexStructure::new() }
    }

    /// Appends a field. Fails, leaving nothing behind, when the name holds a
    /// NUL character or the record would outgrow an `i32`.
    pub fn add(self, name: &str, data: VertexData) -> (added: Result<Self, VertexStructureError>)
        ensures
            match added {
                Ok(builder) => {
                    &&& name_is_valid(name@)
                    &&& stride_of(self@.fields) + data.byte_size() <= i32::MAX
                    &&& builder@.fields == self@.fields.push(VertexField { name: name@, data })
                    &&& builder@.instanced == self@.instanced
                },
                Err(VertexStructureError::InvalidName) => !name_is_valid(name@),
                Err(VertexStructureError::TooLarge) => {
                    &&& name_is_valid(name@)
                    &&& stride_of(self@.fields) + data.byte_size() > i32::MAX
                },
            },
    {
        if name_has_nul(name) {
            return Err(VertexStructureError::InvalidName);
        }
        proof {
            use_type_invariant(&self.vertex_structure);
            lemma_stride_bounds(self@.fields);
        }
        let size: i32 = data.size();
        let VertexStructure { elements, instanced, stride } = self.vertex_structure;
        if size > i32::MAX - stride {
            return Err(VertexStructureError::TooLarge);
        }
        let ghost before = Seq::new(elements@.len(), |i: int| elements@[i]@);
        let mut elements = elements;
        elements.push(VertexElement { name: name.to_owned(), data });
        proof {
            let field = VertexField { name: name@, data };
            let after = Seq::new(elements@.len(), |i: int| elements@[i]@);
            assert(after =~= before.push(field));
            lemma_stride_push(before, field);
        }
        Ok(
            VertexStructureBuilder {
                vertex_structure: VertexStructure { elements, instanced, stride: stride + size },
            },
        )
    }

    /// Sets whether the layout advances per instance.
    pub fn instanced(self, instanced: bool) -> (builder: Self)
        ensures
            builder@.fields == self@.fields,
            builder@.instanced == instanced,
    {
        proof {
            use_type_invariant(&self.vertex_structure);
        }
        let VertexStructure { elements, instanced: _, stride } = self.vertex_structure;
        VertexStructureBuilder { vertex_structure: VertexStructure { elements, instanced, stride } }
    }

    /// Finishes the layout.
    pub fn build(self) -> (layout: VertexStructure)
        ensures
            layout@ == self@,
    {
        self.vertex_structure
    }
}

} // verus!
