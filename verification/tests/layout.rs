use graphics::color::Color;
use graphics::graphic_device::GraphicDevice;
use graphics::model_transform::{ModelTransform, FLOAT_SIZE};
use graphics::vertex::{words_of_vertices, Vertex};
use graphics::vertex_layout::{InputStepMode, VertexAttribute, VertexFormat};

fn native(word: u32) -> [u8; 4] {
    if u16::from_ne_bytes([1, 0]) == 1 {
        word.to_le_bytes()
    } else {
        word.to_be_bytes()
    }
}

#[test]
fn vertex_layout() {
    let layout = Vertex::desc();
    assert_eq!(layout.array_stride, 8);
    assert_eq!(layout.array_stride, Vertex::STRIDE);
    assert_eq!(layout.step_mode, InputStepMode::Vertex);
    assert_eq!(
        layout.attributes,
        vec![VertexAttribute { offset: 0, shader_location: 0, format: VertexFormat::Float2 }]
    );
}

#[test]
fn color_layout() {
    let layout = Color::desc();
    assert_eq!(layout.array_stride, 16);
    assert_eq!(layout.array_stride, Color::STRIDE);
    assert_eq!(layout.step_mode, InputStepMode::Instance);
    assert_eq!(
        layout.attributes,
        vec![VertexAttribute { offset: 0, shader_location: 1, format: VertexFormat::Float4 }]
    );
}

#[test]
fn model_transform_layout() {
    let layout = ModelTransform::desc();
    assert_eq!(FLOAT_SIZE, 4);
    assert_eq!(layout.array_stride, 64);
    assert_eq!(layout.array_stride, ModelTransform::STRIDE);
    assert_eq!(layout.step_mode, InputStepMode::Instance);
    assert_eq!(
        layout.attributes,
        vec![
            VertexAttribute { offset: 0, shader_location: 2, format: VertexFormat::Float4 },
            VertexAttribute { offset: 16, shader_location: 3, format: VertexFormat::Float4 },
            VertexAttribute { offset: 32, shader_location: 4, format: VertexFormat::Float4 },
            VertexAttribute { offset: 48, shader_location: 5, format: VertexFormat::Float4 },
        ]
    );
}

#[test]
fn format_sizes() {
    assert_eq!(VertexFormat::Float2.size(), 8);
    assert_eq!(VertexFormat::Float4.size(), 16);
}

#[test]
fn pipeline_reads_vertices_colors_and_transforms() {
    let buffers = GraphicDevice::vertex_buffers();
    assert_eq!(buffers.len(), 3);
    assert_eq!(buffers[0].array_stride, Vertex::STRIDE);
    assert_eq!(buffers[1].array_stride, Color::STRIDE);
    assert_eq!(buffers[2].array_stride, ModelTransform::STRIDE);
    let mut locations: Vec<u32> = Vec::new();
    for buffer in buffers.iter() {
        let mut end = 0;
        for attribute in buffer.attributes.iter() {
            assert_eq!(attribute.offset, end);
            end = attribute.offset + attribute.format.size();
            locations.push(attribute.shader_location);
        }
        assert_eq!(end, buffer.array_stride);
    }
    assert_eq!(locations, vec![0, 1, 2, 3, 4, 5]);
}

#[test]
fn color_channels_in_upload_order() {
    let color = Color::new(10, 20, 30, 40);
    assert_eq!(color, Color { r: 10, g: 20, b: 30, a: 40 });
    assert_eq!(color.to_array(), [10, 20, 30, 40]);
    let mut words = vec![7];
    color.append_words(&mut words);
    assert_eq!(words, vec![7, 10, 20, 30, 40]);
}

#[test]
fn transform_words_in_upload_order() {
    let transform =
        ModelTransform::new([[1, 2, 3, 4], [5, 6, 7, 8], [9, 10, 11, 12], [13, 14, 15, 16]]);
    let mut words = vec![0];
    transform.append_words(&mut words);
    assert_eq!(words, (0..=16).collect::<Vec<u32>>());
}

#[test]
fn vertex_words_in_upload_order() {
    let vertices = vec![Vertex::new(1, 2), Vertex::new(3, 4), Vertex::new(5, 6)];
    assert_eq!(words_of_vertices(&vertices), vec![1, 2, 3, 4, 5, 6]);
    assert_eq!(words_of_vertices(&Vec::new()), Vec::<u32>::new());
}

#[test]
fn geometry_bytes_are_the_memory_of_the_numbers() {
    let mut device = GraphicDevice::new(800, 600);
    let vertices = vec![
        Vertex::new(0.0f32.to_bits(), 1.0f32.to_bits()),
        Vertex::new(1.0f32.to_bits(), (-1.0f32).to_bits()),
        Vertex::new((-1.0f32).to_bits(), (-1.0f32).to_bits()),
    ];
    let shape = device
        .create_shape(vertices, vec![0, 1, 0x0203], "triangle")
        .err();
    assert!(shape.is_some());
    let vertices = vec![
        Vertex::new(0.0f32.to_bits(), 1.0f32.to_bits()),
        Vertex::new(1.0f32.to_bits(), (-1.0f32).to_bits()),
        Vertex::new((-1.0f32).to_bits(), (-1.0f32).to_bits()),
    ];
    let shape = device.create_shape(vertices, vec![0, 1, 2], "triangle").unwrap();
    let geometry = device.geometry(&shape).unwrap();

    let vertex_bytes = geometry.vertex_bytes();
    assert_eq!(vertex_bytes.len(), 3 * 8);
    let numbers = [0.0f32, 1.0, 1.0, -1.0, -1.0, -1.0];
    let mut expected = Vec::new();
    for number in numbers.iter() {
        expected.extend_from_slice(&native(number.to_bits()));
    }
    assert_eq!(vertex_bytes, expected);
    for (k, number) in numbers.iter().enumerate() {
        let mut four = [0u8; 4];
        four.copy_from_slice(&vertex_bytes[4 * k..4 * k + 4]);
        assert_eq!(f32::from_ne_bytes(four), *number);
    }

    let index_bytes = geometry.index_bytes();
    assert_eq!(index_bytes.len(), 3 * 2);
    let mut expected = Vec::new();
    for index in [0u16, 1, 2] {
        expected.extend_from_slice(&index.to_ne_bytes());
    }
    assert_eq!(index_bytes, expected);
}

#[test]
fn index_bytes_keep_both_bytes_of_an_index() {
    let mut device = GraphicDevice::new(800, 600);
    let vertices: Vec<Vertex> = (0..0x0300u32).map(|k| Vertex::new(k, k)).collect();
    let shape = device
        .create_shape(vertices, vec![0x0102, 0x02ff, 0], "many")
        .unwrap();
    let bytes = device.geometry(&shape).unwrap().index_bytes();
    let mut expected = Vec::new();
    for index in [0x0102u16, 0x02ff, 0] {
        expected.extend_from_slice(&index.to_ne_bytes());
    }
    assert_eq!(bytes, expected);
    assert_ne!(bytes[0], bytes[1]);
}

#[test]
fn instance_bytes_are_the_memory_of_the_numbers() {
    let mut device = GraphicDevice::new(800, 600);
    let shape = device
        .create_shape(vec![Vertex::new(0, 0)], vec![0], "point")
        .unwrap();
    let first =
        ModelTransform::new([[1, 2, 3, 4], [5, 6, 7, 8], [9, 10, 11, 12], [13, 14, 15, 16]]);
    let second = ModelTransform::new([
        [0x0102_0304, 0, 0, 0],
        [0, 0x0506_0708, 0, 0],
        [0, 0, 0, 0],
        [0, 0, 0, 0xffee_ddcc],
    ]);
    device.draw_shape(first, Color::new(21, 22, 23, 24), &shape);
    device.draw_shape(second, Color::new(0x3f80_0000, 0x3f00_0000, 0, 0x3f80_0000), &shape);
    let pass = device.render_frame(Color::new(0, 0, 0, 0), true).outcome.unwrap();
    let batch = &pass.draws[0];

    let transform_bytes = batch.transform_bytes();
    assert_eq!(transform_bytes.len(), 2 * 64);
    let mut expected = Vec::new();
    for transform in [first, second].iter() {
        for row in transform.transform.iter() {
            for word in row.iter() {
                expected.extend_from_slice(&native(*word));
            }
        }
    }
    assert_eq!(transform_bytes, expected);

    let color_bytes = batch.color_bytes();
    assert_eq!(color_bytes.len(), 2 * 16);
    let mut expected = Vec::new();
    for word in [21u32, 22, 23, 24, 0x3f80_0000, 0x3f00_0000, 0, 0x3f80_0000] {
        expected.extend_from_slice(&native(word));
    }
    assert_eq!(color_bytes, expected);
    let mut four = [0u8; 4];
    four.copy_from_slice(&color_bytes[20..24]);
    assert_eq!(f32::from_ne_bytes(four), 0.5);
}
