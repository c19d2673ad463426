use mini_router::helpers::{call_twice, city_popuration_descending, City};

#[test]
fn population_key_negates() {
    let tokyo = City { name: "Tokyo".to_string(), population: 100, country: "Japan".to_string() };
    let ny = City { name: "NY".to_string(), population: 99, country: "USA".to_string() };
    assert_eq!(city_popuration_descending(&tokyo), -100);
    assert_eq!(city_popuration_descending(&ny), -99);
    let mut cities = vec![ny, tokyo];
    cities.sort_by_key(city_popuration_descending);
    assert_eq!(cities[0].name, "Tokyo");
    assert_eq!(cities[1].name, "NY");
}

#[test]
fn call_twice_runs_closure_two_times() {
    let mut i = 0;
    call_twice(|| i += 1);
    assert_eq!(i, 2);
}
