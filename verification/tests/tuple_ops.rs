use rt_core::tuple::Tuple;

const EPSILON: f64 = 0.00001;

fn equals<const N: usize>(a: &Tuple<f64, N>, b: &Tuple<f64, N>) -> bool {
    a.all_pairs(b, |x, y| (x - y).abs() < EPSILON)
}

#[test]
fn access_elements() {
    let t = Tuple::<f64, 4>::from([1.0, 2.0, 3.0, 4.0]);
    assert_eq!(t.index(0), 1.0);
    assert_eq!(t.index(1), 2.0);
    assert_eq!(t.index(2), 3.0);
    assert_eq!(t.index(3), 4.0);
}

#[test]
fn from_array() {
    let t: Tuple<f64, 4> = Tuple::from([1.0, 2.0, 3.0, 4.0]);
    assert!(equals(&t, &Tuple::from([1.0, 2.0, 3.0, 4.0])));
}

#[test]
fn identical_tuples() {
    assert!(equals(
        &Tuple::<f64, 4>::from([1.0, 2.0, 3.0, 4.0]),
        &Tuple::<f64, 4>::from([1.0, 2.0, 3.0, 4.0]),
    ));
}

#[test]
fn small_difference_within_epsilon() {
    assert!(equals(
        &Tuple::<f64, 4>::from([1.0, 2.0, 3.0, 4.0]),
        &Tuple::<f64, 4>::from([1.0, 2.0, 3.0, 4.00001]),
    ));
}

#[test]
fn different_tuples() {
    assert!(!equals(
        &Tuple::<f64, 4>::from([1.0, 2.0, 3.0, 4.0]),
        &Tuple::<f64, 4>::from([2.0, 3.0, 4.0, 5.0]),
    ));
}

#[test]
fn addition_of_tuples() {
    let sum = Tuple::<f64, 4>::from([1.0, 2.0, 3.0, 4.0])
        .combine(&Tuple::from([2.0, 3.0, 4.0, 5.0]), |x, y| x + y);
    assert!(equals(&sum, &Tuple::from([3.0, 5.0, 7.0, 9.0])));
}

#[test]
fn subtraction_of_tuples() {
    let diff = Tuple::<f64, 4>::from([1.0, 2.0, 3.0, 4.0])
        .combine(&Tuple::from([2.0, 3.0, 4.0, 5.0]), |x, y| x - y);
    assert!(equals(&diff, &Tuple::from([-1.0, -1.0, -1.0, -1.0])));
}

#[test]
fn multiplication_of_tuples() {
    let product = Tuple::<f64, 4>::from([1.0, 2.0, 3.0, 4.0])
        .combine(&Tuple::from([2.0, 3.0, 4.0, 5.0]), |x, y| x * y);
    assert!(equals(&product, &Tuple::from([2.0, 6.0, 12.0, 20.0])));
}

#[test]
fn division_by_a_tuple() {
    let quotient = Tuple::<f64, 4>::from([2.0, 4.0, 6.0, 8.0])
        .combine(&Tuple::from([2.0, 2.0, 2.0, 2.0]), |x, y| x / y);
    assert!(equals(&quotient, &Tuple::from([1.0, 2.0, 3.0, 4.0])));
}

#[test]
fn multiplication_by_a_scalar() {
    let scaled = Tuple::<f64, 4>::from([1.0, 2.0, 3.0, 4.0]).apply(|x| x * 3.5);
    assert!(equals(&scaled, &Tuple::from([3.5, 7.0, 10.5, 14.0])));
}

#[test]
fn multiplication_by_a_fraction() {
    let scaled = Tuple::<f64, 4>::from([1.0, 2.0, 3.0, 4.0]).apply(|x| x * 0.5);
    assert!(equals(&scaled, &Tuple::from([0.5, 1.0, 1.5, 2.0])));
}

#[test]
fn division_by_a_scalar() {
    let scaled = Tuple::<f64, 4>::from([1.0, 2.0, 3.0, 4.0]).apply(|x| x / 2.0);
    assert!(equals(&scaled, &Tuple::from([0.5, 1.0, 1.5, 2.0])));
}

#[test]
fn negation_of_tuple() {
    let negated = Tuple::<f64, 4>::from([1.0, 2.0, 3.0, 4.0]).apply(|x| -x);
    assert!(equals(&negated, &Tuple::from([-1.0, -2.0, -3.0, -4.0])));
}
