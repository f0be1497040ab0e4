use brep_kernel::{
    Curve, Cycle, Edge, Face, Position, Shape, Surface, SweptCurve, Validate, ValidationError,
    Vertex,
};
use fj_math::{Line, Point, Scalar, Vector};

fn point(x: f64, y: f64, z: f64) -> Position {
    Position::new(Point::from([x, y, z])).unwrap()
}

fn x_axis() -> Curve {
    let (line, _) = Line::from_points([[0., 0., 0.], [1., 0., 0.]]);
    Curve::Line(line)
}

fn xy_plane() -> Surface {
    Surface::SweptCurve(SweptCurve {
        curve: x_axis(),
        path: Vector::from([0., 1., 0.]),
    })
}

fn tolerance() -> Scalar {
    Scalar::from_f64(0.01)
}

fn sizes(shape: &Shape) -> [usize; 7] {
    let stores = shape.stores();
    [
        stores.points.len(),
        stores.curves.len(),
        stores.surfaces.len(),
        stores.vertices.len(),
        stores.edges.len(),
        stores.cycles.len(),
        stores.faces.len(),
    ]
}

#[test]
fn new_shape_is_empty() {
    let shape = Shape::new(4, tolerance());

    assert_eq!(shape.id(), 4);
    assert_eq!(shape.min_distance(), Scalar::from_f64(0.01));
    assert_eq!(sizes(&shape), [0, 0, 0, 0, 0, 0, 0]);
}

#[test]
fn second_vertex_at_same_point_is_not_unique() {
    let mut shape = Shape::new(1, tolerance());
    let point = shape.add_point(point(1., 2., 3.)).unwrap();

    let first = shape.add_vertex(Vertex { point }).unwrap();
    assert!(shape.stores().vertices.contains(&first));

    let second = shape.add_vertex(Vertex { point });
    assert!(matches!(second, Err(ValidationError::Uniqueness)));
    assert_eq!(shape.stores().vertices.len(), 1);
    assert_eq!(shape.stores().vertices.handles(), vec![first]);
}

#[test]
fn vertex_at_equal_coordinates_is_not_unique() {
    let mut shape = Shape::new(1, tolerance());
    let here = shape.add_point(point(1., 2., 3.)).unwrap();
    let there = shape.add_point(point(1., 2., 3.)).unwrap();
    assert_ne!(here, there);

    shape.add_vertex(Vertex { point: here }).unwrap();
    let second = shape.add_vertex(Vertex { point: there });

    assert!(matches!(second, Err(ValidationError::Uniqueness)));
}

#[test]
fn edge_on_empty_shape_names_all_it_misses() {
    let mut other = Shape::new(2, tolerance());
    let curve = other.add_curve(x_axis()).unwrap();
    let a = other.add_point(point(1., 0., 0.)).unwrap();
    let b = other.add_point(point(2., 0., 0.)).unwrap();
    let a = other.add_vertex(Vertex { point: a }).unwrap();
    let b = other.add_vertex(Vertex { point: b }).unwrap();

    let mut shape = Shape::new(1, tolerance());
    let error = shape
        .add_edge(Edge {
            curve,
            vertices: Some([a, b]),
        })
        .unwrap_err();

    assert!(error.missing_curve(&curve));
    assert!(error.missing_vertex(&a));
    assert!(error.missing_vertex(&b));
    match error {
        ValidationError::Structure(issues) => {
            assert_eq!(issues.missing_curve, Some(curve));
            assert_eq!(issues.missing_vertices.len(), 2);
            assert!(issues.missing_vertices.contains(&a));
            assert!(issues.missing_vertices.contains(&b));
            assert!(issues.missing_edges.is_empty());
            assert_eq!(issues.missing_surface, None);
            assert!(issues.missing_cycles.is_empty());
        }
        _ => panic!("expected a structural error"),
    }
    assert_eq!(sizes(&shape), [0, 0, 0, 0, 0, 0, 0]);
}

#[test]
fn edge_is_accepted_once_its_parts_are_in_the_shape() {
    let mut shape = Shape::new(1, tolerance());
    let curve = shape.add_curve(x_axis()).unwrap();
    let a = shape.add_point(point(1., 0., 0.)).unwrap();
    let b = shape.add_point(point(2., 0., 0.)).unwrap();
    let a = shape.add_vertex(Vertex { point: a }).unwrap();
    let b = shape.add_vertex(Vertex { point: b }).unwrap();

    let edge = Edge {
        curve,
        vertices: Some([a, b]),
    };
    let handle = shape.add_edge(edge.clone()).unwrap();

    assert_eq!(shape.stores().edges.get(&handle), Some(&edge));
    assert_eq!(sizes(&shape), [2, 1, 0, 2, 1, 0, 0]);
}

#[test]
fn face_misses_cycle_until_cycle_is_inserted() {
    let mut other = Shape::new(2, tolerance());
    let foreign = other.add_cycle(Cycle { edges: Vec::new() }).unwrap();

    let mut shape = Shape::new(1, tolerance());
    let s = shape.add_surface(xy_plane()).unwrap();

    let face = Face::Face {
        surface: s,
        exteriors: vec![foreign],
        interiors: Vec::new(),
        color: [255, 0, 0, 255],
    };
    let error = face.validate(tolerance(), shape.stores()).unwrap_err();
    assert!(!error.missing_surface(&s));
    assert!(error.missing_cycle(&foreign));
    match error {
        ValidationError::Structure(issues) => {
            assert_eq!(issues.missing_surface, None);
            assert_eq!(issues.missing_cycles, vec![foreign]);
        }
        _ => panic!("expected a structural error"),
    }

    let c = shape.add_cycle(Cycle { edges: Vec::new() }).unwrap();
    let face = Face::Face {
        surface: s,
        exteriors: vec![c],
        interiors: Vec::new(),
        color: [255, 0, 0, 255],
    };
    assert!(face.validate(tolerance(), shape.stores()).is_ok());
    let handle = shape.add_face(face.clone()).unwrap();
    assert_eq!(shape.stores().faces.get(&handle), Some(&face));
}

#[test]
fn cycle_of_uninserted_edges_is_rejected() {
    let mut other = Shape::new(2, tolerance());
    let curve = other.add_curve(x_axis()).unwrap();
    let edge = other
        .add_edge(Edge {
            curve,
            vertices: None,
        })
        .unwrap();

    let mut shape = Shape::new(1, tolerance());
    let error = shape.add_cycle(Cycle { edges: vec![edge] }).unwrap_err();

    assert!(error.missing_edge(&edge));
    assert_eq!(shape.stores().cycles.len(), 0);
}

#[test]
fn rejected_objects_leave_the_shape_as_it_was() {
    let mut other = Shape::new(2, tolerance());
    let foreign_point = other.add_point(point(9., 9., 9.)).unwrap();
    let foreign_curve = other.add_curve(x_axis()).unwrap();
    let foreign_surface = other.add_surface(xy_plane()).unwrap();
    let foreign_edge = other
        .add_edge(Edge {
            curve: foreign_curve,
            vertices: None,
        })
        .unwrap();
    let foreign_cycle = other.add_cycle(Cycle { edges: Vec::new() }).unwrap();

    let mut shape = Shape::new(1, tolerance());
    let p = shape.add_point(point(0., 0., 0.)).unwrap();
    shape.add_vertex(Vertex { point: p }).unwrap();
    let before = sizes(&shape);
    let handles_before = shape.stores().vertices.handles();

    assert!(shape.add_vertex(Vertex { point: foreign_point }).is_err());
    assert!(shape.add_vertex(Vertex { point: p }).is_err());
    assert!(shape
        .add_edge(Edge {
            curve: foreign_curve,
            vertices: None,
        })
        .is_err());
    assert!(shape
        .add_cycle(Cycle {
            edges: vec![foreign_edge],
        })
        .is_err());
    assert!(shape
        .add_face(Face::Face {
            surface: foreign_surface,
            exteriors: vec![foreign_cycle],
            interiors: Vec::new(),
            color: [0, 0, 0, 0],
        })
        .is_err());

    assert_eq!(sizes(&shape), before);
    assert_eq!(shape.stores().vertices.handles(), handles_before);
    assert_eq!(shape.stores().points.get(&p), Some(&point(0., 0., 0.)));
}

#[test]
fn geometry_is_inserted_without_comparison() {
    let mut shape = Shape::new(1, tolerance());

    let point_a = shape.add_point(point(1., 1., 1.)).unwrap();
    let point_b = shape.add_point(point(1., 1., 1.)).unwrap();
    let curve_a = shape.add_curve(x_axis()).unwrap();
    let curve_b = shape.add_curve(x_axis()).unwrap();
    let surface_a = shape.add_surface(xy_plane()).unwrap();
    let surface_b = shape.add_surface(xy_plane()).unwrap();

    assert_ne!(point_a, point_b);
    assert_ne!(curve_a, curve_b);
    assert_ne!(surface_a, surface_b);
    assert!(shape.stores().points.contains(&point_a));
    assert!(shape.stores().points.contains(&point_b));
    assert_eq!(sizes(&shape), [2, 2, 2, 0, 0, 0, 0]);
}

#[test]
fn equal_edges_get_distinct_handles() {
    let mut shape = Shape::new(1, tolerance());
    let curve = shape.add_curve(x_axis()).unwrap();
    let edge = Edge {
        curve,
        vertices: None,
    };

    let first = shape.add_edge(edge.clone()).unwrap();
    let second = shape.add_edge(edge.clone()).unwrap();

    assert_ne!(first, second);
    assert!(shape.stores().edges.contains(&first));
    assert!(shape.stores().edges.contains(&second));
    assert_eq!(shape.stores().edges.len(), 2);
}

#[test]
fn handles_of_another_shape_are_not_accepted() {
    let mut other = Shape::new(2, tolerance());
    let foreign = other.add_point(point(0., 0., 0.)).unwrap();

    let mut shape = Shape::new(1, tolerance());
    let own = shape.add_point(point(0., 0., 0.)).unwrap();

    assert_ne!(own, foreign);
    assert!(!shape.stores().points.contains(&foreign));
    assert!(shape.add_vertex(Vertex { point: foreign }).is_err());
    assert!(shape.add_vertex(Vertex { point: own }).is_ok());
}

#[test]
fn vertices_apart_by_the_minimum_distance_are_accepted() {
    let mut shape = Shape::new(1, Scalar::from_f64(1.));
    let a = shape.add_point(point(0., 0., 0.)).unwrap();
    let b = shape.add_point(point(1., 0., 0.)).unwrap();
    let c = shape.add_point(point(1.5, 0., 0.)).unwrap();

    assert!(shape.add_vertex(Vertex { point: a }).is_ok());
    assert!(shape.add_vertex(Vertex { point: b }).is_ok());
    assert!(matches!(
        shape.add_vertex(Vertex { point: c }),
        Err(ValidationError::Uniqueness)
    ));
    assert_eq!(shape.stores().vertices.len(), 2);
}

#[test]
fn triangle_is_built_object_by_object() {
    let mut shape = Shape::new(1, tolerance());
    let surface = shape.add_surface(xy_plane()).unwrap();
    let corners = [[0., 0., 0.], [1., 0., 0.], [0., 1., 0.]];

    let mut vertices = Vec::new();
    for [x, y, z] in corners {
        let p = shape.add_point(point(x, y, z)).unwrap();
        vertices.push(shape.add_vertex(Vertex { point: p }).unwrap());
    }
    let mut edges = Vec::new();
    for i in 0..3 {
        let (line, _) = Line::from_points([corners[i], corners[(i + 1) % 3]]);
        let curve = shape.add_curve(Curve::Line(line)).unwrap();
        let edge = Edge {
            curve,
            vertices: Some([vertices[i], vertices[(i + 1) % 3]]),
        };
        edges.push(shape.add_edge(edge).unwrap());
    }
    let cycle = shape.add_cycle(Cycle { edges }).unwrap();
    let face = shape
        .add_face(Face::Face {
            surface,
            exteriors: vec![cycle],
            interiors: Vec::new(),
            color: [255, 0, 0, 255],
        })
        .unwrap();

    assert!(shape.stores().faces.contains(&face));
    assert_eq!(sizes(&shape), [3, 3, 1, 3, 3, 1, 1]);
}

#[test]
fn same_face_is_valid_once_its_cycle_is_inserted() {
    let mut twin = Shape::new(1, tolerance());
    let ahead = twin.add_cycle(Cycle { edges: Vec::new() }).unwrap();

    let mut shape = Shape::new(1, tolerance());
    let s = shape.add_surface(xy_plane()).unwrap();
    let face = Face::Face {
        surface: s,
        exteriors: vec![ahead],
        interiors: Vec::new(),
        color: [255, 0, 0, 255],
    };

    let error = face.validate(tolerance(), shape.stores()).unwrap_err();
    assert!(error.missing_cycle(&ahead));
    match error {
        ValidationError::Structure(issues) => {
            assert_eq!(issues.missing_surface, None);
            assert_eq!(issues.missing_cycles, vec![ahead]);
        }
        _ => panic!("expected a structural error"),
    }
    assert!(shape.add_face(face.clone()).is_err());
    assert_eq!(shape.stores().faces.len(), 0);

    let c = shape.add_cycle(Cycle { edges: Vec::new() }).unwrap();
    assert_eq!(c, ahead);
    assert!(face.validate(tolerance(), shape.stores()).is_ok());
    assert!(shape.add_face(face).is_ok());
}
