use graphics::utils::{build_circle, circle_indices, is_at_most_epsilon, polygon_indices};
use graphics::vertex::Vertex;

/// The vertices on the rim of a circle, the first on the positive x axis and
/// the others at equal steps of angle after it.
fn rim_vertices(radius: f32, num_vertices: usize) -> Vec<Vertex> {
    let mut rim = Vec::with_capacity(num_vertices);
    if num_vertices == 0 {
        return rim;
    }
    let angle_increment = 2.0 * std::f32::consts::PI / (num_vertices as f32);
    let mut current_angle = angle_increment;
    rim.push(Vertex::new(radius.to_bits(), 0.0f32.to_bits()));
    for _ in 1..num_vertices {
        let x = radius * f32::cos(current_angle);
        let y = radius * f32::sin(current_angle);
        rim.push(Vertex::new(x.to_bits(), y.to_bits()));
        current_angle += angle_increment;
    }
    rim
}

fn circle(radius: f32, num_vertices: usize) -> (Vec<Vertex>, Vec<u16>) {
    build_circle(radius.to_bits(), num_vertices, rim_vertices(radius, num_vertices))
}

fn position(vertex: Vertex) -> [f32; 2] {
    [f32::from_bits(vertex.position[0]), f32::from_bits(vertex.position[1])]
}

fn vertex_distance(v0: Vertex, v1: Vertex) -> f32 {
    let dx = position(v0)[0] - position(v1)[0];
    let dy = position(v0)[1] - position(v1)[1];

    f32::sqrt(dx * dx + dy * dy)
}

#[test]
fn build_circle_standard_circle() {
    // This is the expected use case.
    let num_vertices = 64;
    let radius = 1.0;

    let (verts, indices) = circle(radius, num_vertices);

    assert_eq!(verts.len(), (num_vertices + 1) as usize);
    assert_eq!(indices.len(), (num_vertices * 3) as usize);

    for i in 1..num_vertices {
        // Each point should be radius away from center point.
        let radial_dist = vertex_distance(verts[0], verts[i]);

        assert!(
            radial_dist - radius > -f32::EPSILON && radial_dist - radius < f32::EPSILON,
            "assertion failed: {} ~= {}",
            radial_dist,
            radius
        );

        for j in (i + 1)..num_vertices {
            // Each point should be some distance away from
            // every other point.  This is to catch repeating
            // points.
            let dist = vertex_distance(verts[i], verts[j]);

            assert!(
                dist > f32::EPSILON,
                "assertion failed: {} > 0, for indices {} (= {:?}) and {} (= {:?})",
                dist,
                i,
                position(verts[i]),
                j,
                position(verts[j])
            );
        }
    }

    for i in 0..num_vertices {
        // Every third index should be the center point.
        assert_eq!(indices[i * 3], 0);
    }
}

#[test]
fn build_circle_zero_vertices() {
    // Zero vertices should be a single point.
    let num_vertices = 0;
    let radius = 1.0;

    let (verts, indices) = circle(radius, num_vertices);

    assert_eq!(verts.len(), 1);
    assert_eq!(indices.len(), 1);
}

#[test]
fn build_circle_zero_radius() {
    // Zero radius should be a single point.
    let num_vertices = 25;
    let radius = 0.0;

    let (verts, indices) = circle(radius, num_vertices);

    assert_eq!(verts.len(), 1);
    assert_eq!(indices.len(), 1);
}

#[test]
fn circle_of_64_segments_has_65_vertices_and_192_indices() {
    let (verts, indices) = circle(1.0, 64);
    assert_eq!(verts.len(), 65);
    assert_eq!(indices.len(), 192);
    assert_eq!(verts[0], Vertex::new(0, 0));
    assert_eq!(verts[1], Vertex::new(1.0f32.to_bits(), 0));
}

#[test]
fn circle_indices_form_a_closed_fan() {
    assert_eq!(
        circle_indices(1.0f32.to_bits(), 4),
        vec![0, 1, 2, 0, 2, 3, 0, 3, 4, 0, 4, 1]
    );
    assert_eq!(circle_indices(2.5f32.to_bits(), 1), vec![0, 1, 1]);
    assert_eq!(circle_indices(2.5f32.to_bits(), 2), vec![0, 1, 2, 0, 2, 1]);
}

#[test]
fn circle_indices_stay_below_the_vertex_count() {
    for &n in &[1usize, 2, 3, 64, 1000, 65535] {
        let indices = circle_indices(1.0f32.to_bits(), n);
        assert_eq!(indices.len(), 3 * n);
        for (k, &index) in indices.iter().enumerate() {
            assert!((index as usize) < n + 1);
            if k % 3 == 0 {
                assert_eq!(index, 0);
            }
        }
        assert_eq!(indices[3 * n - 2] as usize, n);
        assert_eq!(indices[3 * n - 1], 1);
    }
}

#[test]
fn degenerate_circle_is_a_single_point() {
    for &radius in &[0.0f32, -0.0, 1.0e-9, f32::EPSILON, -3.0, f32::NEG_INFINITY] {
        let (verts, indices) = circle(radius, 12);
        assert_eq!(verts, vec![Vertex::new(0, 0)]);
        assert_eq!(indices, vec![0]);
    }
    for &radius in &[1.0f32, 250.0, f32::NAN, f32::INFINITY] {
        let (verts, indices) = circle(radius, 0);
        assert_eq!(verts, vec![Vertex::new(0, 0)]);
        assert_eq!(indices, vec![0]);
    }
}

#[test]
fn degenerate_circle_may_have_any_number_of_segments() {
    let (verts, indices) = build_circle(0.0f32.to_bits(), 1_000_000, Vec::new());
    assert_eq!(verts, vec![Vertex::new(0, 0)]);
    assert_eq!(indices, vec![0]);
    assert_eq!(circle_indices((-1.0f32).to_bits(), usize::MAX), vec![0]);
}

#[test]
fn radius_just_above_epsilon_is_a_circle() {
    let radius = f32::from_bits(f32::EPSILON.to_bits() + 1);
    let (verts, indices) = circle(radius, 3);
    assert_eq!(verts.len(), 4);
    assert_eq!(indices, vec![0, 1, 2, 0, 2, 3, 0, 3, 1]);
}

#[test]
fn epsilon_test_agrees_with_the_comparison_of_numbers() {
    let samples = [
        0.0f32,
        -0.0,
        f32::EPSILON,
        f32::EPSILON / 2.0,
        f32::EPSILON * 2.0,
        f32::MIN_POSITIVE,
        1.0,
        -1.0,
        f32::MAX,
        f32::MIN,
        f32::INFINITY,
        f32::NEG_INFINITY,
        f32::NAN,
        -f32::NAN,
        1.0e-7,
        1.2e-7,
        1.1920929e-7,
        1.1920930e-7,
    ];
    for &sample in &samples {
        assert_eq!(
            is_at_most_epsilon(sample.to_bits()),
            sample <= f32::EPSILON,
            "{:?}",
            sample
        );
    }
    let mut bits: u32 = 0;
    loop {
        let sample = f32::from_bits(bits);
        assert_eq!(is_at_most_epsilon(bits), sample <= f32::EPSILON, "{:#x}", bits);
        match bits.checked_add(0x0003_0d41) {
            Some(next) => bits = next,
            None => break,
        }
    }
}

#[test]
fn rim_may_be_shorter_or_longer_than_the_segments() {
    let (verts, indices) = build_circle(1.0f32.to_bits(), 3, vec![Vertex::new(7, 8)]);
    assert_eq!(verts, vec![Vertex::new(0, 0), Vertex::new(7, 8)]);
    assert_eq!(indices.len(), 9);
}

#[test]
fn polygon_indices_form_an_open_fan() {
    assert_eq!(polygon_indices(2), Vec::<u16>::new());
    assert_eq!(polygon_indices(3), vec![0, 1, 2]);
    assert_eq!(
        polygon_indices(8),
        vec![0, 1, 2, 0, 2, 3, 0, 3, 4, 0, 4, 5, 0, 5, 6, 0, 6, 7]
    );
    assert_eq!(polygon_indices(65535).len(), 3 * 65533);
}
