use kinc::g4::{
    swap_buffers, ClearMode, ColorAttachment, Command, Graphics4, IndexBuffer, IndexBufferFormat,
    PipelineBuilder, Shader, ShaderType, SwapBufferError, Usage, VertexBuffer, VertexBufferDesc,
    VertexData, VertexStructureBuilder,
};
use kinc::KincBuilder;

#[test]
fn clear_mode_flags_are_single_bits() {
    assert_eq!(ClearMode::empty().bits(), 0);
    assert_eq!(ClearMode::color().bits(), 1);
    assert_eq!(ClearMode::depth().bits(), 2);
    assert_eq!(ClearMode::stencil().bits(), 4);
    assert_eq!(ClearMode::all().bits(), 7);
}

#[test]
fn clear_mode_union_and_contains() {
    let both = ClearMode::color().union(ClearMode::stencil());
    assert_eq!(both.bits(), 5);
    assert!(both.contains(ClearMode::color()));
    assert!(both.contains(ClearMode::stencil()));
    assert!(!both.contains(ClearMode::depth()));
    assert!(both.contains(ClearMode::empty()));
    assert!(!both.contains(ClearMode::all()));
    assert!(ClearMode::all().contains(both));
    assert_eq!(both.union(ClearMode::depth()), ClearMode::all());
    assert_eq!(both.union(both), both);
    assert!(ClearMode::empty().is_empty());
    assert!(!both.is_empty());
}

#[test]
fn clear_mode_from_bits() {
    assert_eq!(ClearMode::from_bits(0), Some(ClearMode::empty()));
    assert_eq!(ClearMode::from_bits(3).map(|m| m.bits()), Some(3));
    assert_eq!(ClearMode::from_bits(7), Some(ClearMode::all()));
    assert_eq!(ClearMode::from_bits(8), None);
    assert_eq!(ClearMode::from_bits(9), None);
    assert_eq!(ClearMode::from_bits(u32::MAX), None);
    assert_eq!(ClearMode::from_bits_truncate(9), ClearMode::color());
    assert_eq!(ClearMode::from_bits_truncate(u32::MAX), ClearMode::all());
    assert_eq!(ClearMode::from_bits_truncate(8), ClearMode::empty());
    assert_eq!(ClearMode::from_bits_truncate(6).bits(), 6);
}

#[test]
fn begin_then_end_leaves_the_context_idle() {
    let (kinc, window) = KincBuilder::new("test", 100, 100).build();
    let mut g4 = kinc.g4();
    assert_eq!(g4.pass, None);
    {
        let pass = g4.begin(&window);
        assert_eq!(pass.graphics.pass, Some(0));
        assert!(pass.commands.is_empty());
        pass.end();
    }
    assert_eq!(g4.pass, None);
    {
        let pass = g4.begin(&window);
        assert_eq!(pass.graphics.pass, Some(0));
        pass.end();
    }
    assert_eq!(g4.pass, None);
}

#[test]
fn a_new_context_is_idle() {
    assert_eq!(Graphics4::new().pass, None);
    let (kinc, window) = KincBuilder::new("test", 100, 100).build();
    assert_eq!(kinc.g4().pass, None);
    assert_eq!(window.g4().pass, None);
}

#[test]
fn a_pass_records_what_it_is_told_in_order() {
    let (kinc, window) = KincBuilder::new("test", 100, 100).build();
    let mut g4 = kinc.g4();
    let mut pass = g4.begin(&window);
    pass.clear(ClearMode::color().union(ClearMode::depth()), 0xff00ff00, 0x3f800000, 1);
    pass.set_render_targets(&[]);
    pass.draw_indexed_vertices_from_to(3, 6);
    pass.draw_indexed_vertices_from_to_from(1, 2, 3);
    pass.draw_indexed_vertices();
    pass.clear(ClearMode::empty(), 0, 0, -1);
    assert_eq!(
        pass.commands,
        vec![
            Command::Clear { flags: 3, color: 0xff00ff00, depth: 0x3f800000, stencil: 1 },
            Command::SetRenderTargets { count: 0 },
            Command::DrawIndexedVerticesFromTo { start: 3, count: 6 },
            Command::DrawIndexedVerticesFromToFrom { start: 1, count: 2, vertex_offset: 3 },
            Command::DrawIndexedVertices,
            Command::Clear { flags: 0, color: 0, depth: 0, stencil: -1 },
        ]
    );
    assert!(!pass.can_draw());
    pass.end();
}

#[test]
fn a_draw_is_ready_once_pipeline_and_both_buffers_are_bound() {
    let layout = VertexStructureBuilder::new().add("pos", VertexData::F32_2X).unwrap().build();
    let vertices = VertexBuffer::new(VertexBufferDesc {
        count: 4,
        vertex_structure: layout.clone(),
        usage: Usage::Static,
        instance_data_step_rate: 0,
    })
    .unwrap();
    let indices = IndexBuffer::new(6, Usage::Static, IndexBufferFormat::U16).unwrap();
    let vs = Shader::new(&[], ShaderType::Vertex);
    let fs = Shader::new(&[], ShaderType::Fragment);
    let layouts = [layout.clone(), layout];
    let pipeline =
        PipelineBuilder::new(&vs, &fs, &layouts, &[ColorAttachment::default()]).build().unwrap();

    let (kinc, window) = KincBuilder::new("test", 100, 100).build();
    let mut g4 = kinc.g4();
    let mut pass = g4.begin(&window);
    assert!(!pass.can_draw());
    pass.set_pipeline(&pipeline);
    assert!(pass.pipeline_bound);
    assert!(!pass.can_draw());
    pass.set_index_buffer(&indices);
    assert!(pass.index_buffer_bound);
    assert!(!pass.can_draw());
    pass.set_vertex_buffer(&vertices);
    assert!(pass.vertex_buffer_bound);
    assert!(pass.can_draw());
    pass.draw_indexed_vertices();
    assert!(pass.can_draw());
    assert_eq!(
        pass.commands,
        vec![
            Command::SetPipeline { input_layouts: 2 },
            Command::SetIndexBuffer { count: 6 },
            Command::SetVertexBuffer { count: 4, stride: 8 },
            Command::DrawIndexedVertices,
        ]
    );
    pass.end();
}

#[test]
fn each_binding_alone_is_not_enough_to_draw() {
    let layout = VertexStructureBuilder::new().build();
    let vertices = VertexBuffer::new(VertexBufferDesc {
        count: 1,
        vertex_structure: layout,
        usage: Usage::Static,
        instance_data_step_rate: 0,
    })
    .unwrap();
    let indices = IndexBuffer::new(1, Usage::Static, IndexBufferFormat::U32).unwrap();
    let (kinc, window) = KincBuilder::new("test", 100, 100).build();
    let mut g4 = kinc.g4();
    {
        let mut pass = g4.begin(&window);
        pass.set_vertex_buffer(&vertices);
        pass.set_index_buffer(&indices);
        assert!(!pass.can_draw());
        pass.end();
    }
    let pass = g4.begin(&window);
    assert!(!pass.vertex_buffer_bound);
    assert!(!pass.index_buffer_bound);
    assert!(!pass.pipeline_bound);
    pass.end();
}

#[test]
fn swap_buffers_reports_success() {
    let mut g4 = Graphics4::new();
    assert_eq!(g4.swap_buffers(true), Ok(()));
    assert_eq!(g4.pass, None);
    assert_eq!(swap_buffers(true), Ok(()));
}

#[test]
fn swap_buffers_reports_a_lost_surface_as_an_error() {
    let mut g4 = Graphics4::new();
    assert_eq!(g4.swap_buffers(false), Err(SwapBufferError));
    assert_eq!(g4.pass, None);
    assert_eq!(swap_buffers(false), Err(SwapBufferError));
    assert_eq!(g4.swap_buffers(true), Ok(()));
}

#[test]
fn swap_buffer_error_says_what_failed() {
    assert_eq!(SwapBufferError.message(), "swap_buffers failed");
}
