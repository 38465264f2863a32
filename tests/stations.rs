use metobs::{closest_index, Error};

/// Flat-earth distance in metres between two points given in degrees.
fn flat_distance(lat1: f64, lon1: f64, lat2: f64, lon2: f64) -> f64 {
    let rad = std::f64::consts::PI / 180.0;
    let x = (lon1 - lon2) * rad * ((lat1 + lat2) / 2.0 * rad).cos();
    let y = (lat1 - lat2) * rad;
    6371000.0 * (x * x + y * y).sqrt()
}

#[test]
fn picks_the_smallest_key() {
    assert_eq!(closest_index(&vec![30, 10, 20]).unwrap(), 1);
    assert_eq!(closest_index(&vec![5]).unwrap(), 0);
    assert_eq!(closest_index(&vec![9, 8, 7, 6]).unwrap(), 3);
}

#[test]
fn ties_go_to_the_first() {
    assert_eq!(closest_index(&vec![4, 2, 2, 3]).unwrap(), 1);
    assert_eq!(closest_index(&vec![7, 7, 7]).unwrap(), 0);
}

#[test]
fn empty_list_is_not_found() {
    assert!(matches!(closest_index(&vec![]), Err(Error::NotFound)));
}

#[test]
fn nearest_of_two_stations() {
    let stations = [(59.3, 18.1), (60.0, 18.0)];
    let distances: Vec<f64> =
        stations.iter().map(|(lat, lon)| flat_distance(59.35, 18.05, *lat, *lon)).collect();
    let keys: Vec<u64> = distances.iter().map(|d| d.to_bits()).collect();
    let i = closest_index(&keys).unwrap();
    assert_eq!(i, 0);
    assert!(distances[i] > 0.0);
    assert!(distances[i] < 10_000.0);
}
