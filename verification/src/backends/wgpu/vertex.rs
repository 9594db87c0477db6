use vstd::prelude::*;

verus! {

/// The format of one vertex attribute as the shader reads it.
#[derive(Clone, Copy, Debug, PartialEq, Eq, Structural)]
pub enum VertexFormat {
    /// Three 32-bit floats.
    Float32x3,
}

impl VertexFormat {
    /// The number of bytes one attribute of this format takes.
    pub open spec fn byte_size(self) -> nat {
        match self {
            VertexFormat::Float32x3 => 12,
        }
    }

    /// The number of bytes one attribute of this format takes.
    pub fn size(&self) -> (r: u64)
        ensures
            r == self.byte_size(),
    {
        match self {
            VertexFormat::Float32x3 => 12,
        }
    }
}

/// Whether a vertex buffer advances once per vertex or once per instance.
#[derive(Clone, Copy, Debug, PartialEq, Eq, Structural)]
pub enum VertexStepMode {
    /// One element of the buffer per vertex.
    Vertex,
}

/// Where one attribute lies within a vertex and which shader input reads it.
#[derive(Clone, Copy, Debug, PartialEq, Eq, Structural)]
pub struct VertexAttribute {
    pub offset: u64,
    pub shader_location: u32,
    pub format: VertexFormat,
}

/// How the shader reads a vertex buffer: the distance between two vertices
/// and the attributes within one vertex.
#[derive(Clone, Debug, PartialEq, Eq)]
pub struct VertexBufferLayout {
    pub array_stride: u64,
    pub step_mode: VertexStepMode,
    pub attributes: Vec<VertexAttribute>,
}

/// The total size in bytes of attributes of the given formats laid end to end.
pub open spec fn formats_size(fs: Seq<VertexFormat>) -> nat
    decreases fs.len(),
{
    if fs.len() == 0 {
        0
    } else {
        formats_size(fs.drop_last()) + fs.last().byte_size()
    }
}

/// The attribute that the layout of `fs` puts at position `i`: it starts
/// where the attributes before it end, and shader input `i` reads it.
pub open spec fn attribute_at(fs: Seq<VertexFormat>, i: int) -> VertexAttribute {
    VertexAttribute {
        offset: formats_size(fs.take(i)) as u64,
        shader_location: i as u32,
        format: fs[i],
    }
}

/// Consecutive attributes touch: attribute `i` ends where attribute `i + 1`
/// begins, the first begins at 0, and the last ends at the total size.
pub proof fn lemma_attributes_tile(fs: Seq<VertexFormat>)
    ensures
        formats_size(fs.take(0)) == 0,
        formats_size(fs.take(fs.len() as int)) == formats_size(fs),
        forall|i: int|
            #![trigger fs[i]]
            0 <= i < fs.len() ==> formats_size(fs.take(i)) + fs[i].byte_size() == formats_size(
                fs.take(i + 1),
            ),
{
    assert(fs.take(0) =~= Seq::<VertexFormat>::empty());
    assert(fs.take(fs.len() as int) =~= fs);
    assert forall|i: int|
        #![trigger fs[i]]
        0 <= i < fs.len() implies formats_size(fs.take(i)) + fs[i].byte_size() == formats_size(
            fs.take(i + 1),
        ) by {
        assert(fs.take(i + 1).drop_last() =~= fs.take(i));
    }
}

/// A prefix of the attributes is never larger than all of them.
pub proof fn lemma_prefix_size_bounded(fs: Seq<VertexFormat>, i: int)
    requires
        0 <= i <= fs.len(),
    ensures
        formats_size(fs.take(i)) <= formats_size(fs),
    decreases fs.len() - i,
{
    if i < fs.len() {
        lemma_attributes_tile(fs);
        assert(formats_size(fs.take(i)) + fs[i].byte_size() == formats_size(fs.take(i + 1)));
        lemma_prefix_size_bounded(fs, i + 1);
    } else {
        assert(fs.take(i) =~= fs);
    }
}

/// In the layout of any list of formats, attribute `i` is read by shader
/// input `i`, keeps format `i`, starts at the total size of the attributes
/// before it (the first at 0), and lies within the stride, which the last
/// one reaches exactly.
pub proof fn lemma_layout_positions(fs: Seq<VertexFormat>)
    requires
        fs.len() <= 0x1_0000_0000,
        formats_size(fs) <= u64::MAX,
    ensures
        forall|i: int| 0 <= i < fs.len() ==> (#[trigger] attribute_at(fs, i)).shader_location == i,
        forall|i: int| 0 <= i < fs.len() ==> (#[trigger] attribute_at(fs, i)).format == fs[i],
        forall|i: int| 0 <= i < fs.len() ==> (#[trigger] attribute_at(fs, i)).offset == formats_size(fs.take(i)),
        forall|i: int|
            0 <= i < fs.len() ==> (#[trigger] attribute_at(fs, i)).offset + fs[i].byte_size() <= formats_size(fs),
        fs.len() > 0 ==> attribute_at(fs, 0).offset == 0,
        fs.len() > 0 ==> attribute_at(fs, fs.len() - 1).offset + fs.last().byte_size() == formats_size(fs),
{
    lemma_attributes_tile(fs);
    assert forall|i: int| 0 <= i < fs.len() implies (#[trigger] attribute_at(fs, i)).offset == formats_size(fs.take(i))
        && attribute_at(fs, i).offset + fs[i].byte_size() <= formats_size(fs) by {
        lemma_prefix_size_bounded(fs, i);
        lemma_prefix_size_bounded(fs, i + 1);
        assert(formats_size(fs.take(i)) + fs[i].byte_size() == formats_size(fs.take(i + 1)));
    }
    if fs.len() > 0 {
        assert(attribute_at(fs, 0).offset == formats_size(fs.take(0)));
        let last = fs.len() - 1;
        assert(attribute_at(fs, last).offset == formats_size(fs.take(last)));
        assert(formats_size(fs.take(last)) + fs[last].byte_size() == formats_size(fs.take(last + 1)));
    }
}

/// Attribute `i` ends exactly where attribute `i + 1` starts: no gap and no
/// overlap between neighbours.
pub proof fn lemma_layout_adjacent(fs: Seq<VertexFormat>, i: int)
    requires
        0 <= i < fs.len() - 1,
        formats_size(fs) <= u64::MAX,
    ensures
        attribute_at(fs, i).offset + fs[i].byte_size() == attribute_at(fs, i + 1).offset,
{
    lemma_attributes_tile(fs);
    lemma_prefix_size_bounded(fs, i);
    lemma_prefix_size_bounded(fs, i + 1);
    assert(formats_size(fs.take(i)) + fs[i].byte_size() == formats_size(fs.take(i + 1)));
}

/// Appending formats never moves the attributes already laid out: the
/// layout of a longer list agrees with the layout of its prefix.
pub proof fn lemma_layout_prefix_stable(fs: Seq<VertexFormat>, more: Seq<VertexFormat>, i: int)
    requires
        0 <= i < fs.len(),
    ensures
        attribute_at(fs + more, i) == attribute_at(fs, i),
{
    assert((fs + more).take(i) =~= fs.take(i));
}

/// Lays out attributes of the given formats one after another, in order:
/// attribute `i` is read by shader input `i` and starts where the attributes
/// before it end; the stride is the size of all of them.
pub fn layout_of(formats: &Vec<VertexFormat>) -> (l: VertexBufferLayout)
    requires
        formats.len() <= 0x1_0000_0000,
        formats_size(formats@) <= u64::MAX,
    ensures
        l.array_stride == formats_size(formats@),
        l.step_mode == VertexStepMode::Vertex,
        l.attributes@.len() == formats@.len(),
        forall|i: int| 0 <= i < formats@.len() ==> #[trigger] l.attributes@[i] == attribute_at(formats@, i),
        forall|i: int| 0 <= i < formats@.len() ==> (#[trigger] l.attributes@[i]).shader_location == i,
        forall|i: int| 0 <= i < formats@.len() ==> (#[trigger] l.attributes@[i]).format == formats@[i],
        forall|i: int|
            0 <= i < formats@.len() ==> (#[trigger] l.attributes@[i]).offset == formats_size(formats@.take(i)),
        forall|i: int|
            0 <= i < formats@.len() ==> (#[trigger] l.attributes@[i]).offset + formats@[i].byte_size()
                <= l.array_stride,
        formats@.len() > 0 ==> l.attributes@[0].offset == 0,
        formats@.len() > 0 ==> l.attributes@[formats@.len() - 1].offset + formats@.last().byte_size()
            == l.array_stride,
{
    let mut attributes: Vec<VertexAttribute> = Vec::new();
    let mut offset: u64 = 0;
    let mut i: usize = 0;
    proof {
        lemma_attributes_tile(formats@);
    }
    while i < formats.len()
        invariant
            formats.len() <= 0x1_0000_0000,
            formats_size(formats@) <= u64::MAX,
            i <= formats.len(),
            offset == formats_size(formats@.take(i as int)),
            attributes@.len() == i,
            forall|j: int| 0 <= j < i ==> #[trigger] attributes@[j] == attribute_at(formats@, j),
            forall|j: int|
                #![trigger formats@[j]]
                0 <= j < formats@.len() ==> formats_size(formats@.take(j)) + formats@[j].byte_size()
                    == formats_size(formats@.take(j + 1)),
        decreases formats.len() - i,
    {
        let format = formats[i];
        proof {
            lemma_prefix_size_bounded(formats@, i + 1);
        }
        attributes.push(VertexAttribute { offset, shader_location: i as u32, format });
        offset = offset + format.size();
        i = i + 1;
    }
    proof {
        assert(formats@.take(i as int) =~= formats@);
        lemma_layout_positions(formats@);
    }
    VertexBufferLayout { array_stride: offset, step_mode: VertexStepMode::Vertex, attributes }
}

/// The layout of the renderer's vertex: a position and a color, each three
/// 32-bit floats, read by shader inputs 0 and 1.
pub fn desc() -> (l: VertexBufferLayout)
    ensures
        l.array_stride == 24,
        l.step_mode == VertexStepMode::Vertex,
        l.attributes@ == seq![
            VertexAttribute { offset: 0, shader_location: 0, format: VertexFormat::Float32x3 },
            VertexAttribute { offset: 12, shader_location: 1, format: VertexFormat::Float32x3 },
        ],
{
    let mut formats: Vec<VertexFormat> = Vec::new();
    formats.push(VertexFormat::Float32x3);
    formats.push(VertexFormat::Float32x3);
    proof {
        let fs = formats@;
        assert(fs.take(0) =~= Seq::<VertexFormat>::empty());
        assert(fs.take(1).drop_last() =~= Seq::<VertexFormat>::empty());
        assert(formats_size(Seq::<VertexFormat>::empty()) == 0);
        assert(fs.take(1).last() == VertexFormat::Float32x3);
        assert(fs.drop_last() =~= fs.take(1));
        assert(formats_size(fs.take(1)) == 12);
        assert(formats_size(fs) == 24);
    }
    let l = layout_of(&formats);
    proof {
        assert(l.attributes@ =~= seq![
            VertexAttribute { offset: 0, shader_location: 0, format: VertexFormat::Float32x3 },
            VertexAttribute { offset: 12, shader_location: 1, format: VertexFormat::Float32x3 },
        ]);
    }
    l
}

} // verus!
