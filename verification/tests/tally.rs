use stacc::tally::FrequencyTable;

fn pairs(table: &FrequencyTable) -> Vec<(String, u64)> {
    table.to_vec()
}

#[test]
fn new_table_is_empty() {
    let table = FrequencyTable::new();
    assert_eq!(table.len(), 0);
    assert!(table.to_vec().is_empty());
    assert_eq!(table.get("anything"), None);
}

#[test]
fn first_sighting_counts_one() {
    let mut table = FrequencyTable::new();
    table.insert_or_increment("60617");
    assert_eq!(table.get("60617"), Some(1));
    assert_eq!(table.len(), 1);
}

#[test]
fn later_sightings_add_one_each() {
    let mut table = FrequencyTable::new();
    for _ in 0..5 {
        table.insert_or_increment("AUSTIN");
    }
    table.insert_or_increment("LOOP");
    assert_eq!(table.get("AUSTIN"), Some(5));
    assert_eq!(table.get("LOOP"), Some(1));
    assert_eq!(table.get("austin"), None);
    assert_eq!(table.len(), 2);
}

#[test]
fn counts_add_up_to_the_number_of_sightings() {
    let labels = ["a", "b", "a", "c", "b", "a", "", "c", "a"];
    let mut table = FrequencyTable::new();
    for label in labels {
        table.insert_or_increment(label);
    }
    let sum: u64 = pairs(&table).iter().map(|pair| pair.1).sum();
    assert_eq!(sum, labels.len() as u64);
    assert_eq!(table.get("a"), Some(4));
    assert_eq!(table.get("b"), Some(2));
    assert_eq!(table.get("c"), Some(2));
    assert_eq!(table.get(""), Some(1));
}

#[test]
fn to_vec_puts_the_highest_count_first() {
    let mut table = FrequencyTable::new();
    for label in ["x", "y", "y", "z", "z", "z"] {
        table.insert_or_increment(label);
    }
    assert_eq!(
        pairs(&table),
        vec![("z".to_string(), 3), ("y".to_string(), 2), ("x".to_string(), 1)]
    );
}

#[test]
fn equal_counts_keep_the_order_of_first_sighting() {
    let mut table = FrequencyTable::new();
    for label in ["north", "south", "east", "south", "north", "west"] {
        table.insert_or_increment(label);
    }
    assert_eq!(
        pairs(&table),
        vec![
            ("north".to_string(), 2),
            ("south".to_string(), 2),
            ("east".to_string(), 1),
            ("west".to_string(), 1),
        ]
    );
}

#[test]
fn a_higher_count_always_stands_before_a_lower_one() {
    let mut table = FrequencyTable::new();
    let labels = ["q", "w", "e", "q", "r", "w", "q", "t", "e", "q", "y", "w"];
    for label in labels {
        table.insert_or_increment(label);
    }
    let ranked = pairs(&table);
    for i in 0..ranked.len() {
        for j in 0..ranked.len() {
            if ranked[i].1 > ranked[j].1 {
                assert!(i < j, "{:?} must stand before {:?}", ranked[i], ranked[j]);
            }
        }
    }
    assert_eq!(ranked.len(), table.len());
}

#[test]
fn to_vec_leaves_the_table_as_it_was() {
    let mut table = FrequencyTable::new();
    for label in ["b", "a", "a"] {
        table.insert_or_increment(label);
    }
    let first = pairs(&table);
    let second = pairs(&table);
    assert_eq!(first, second);
    assert_eq!(table.get("b"), Some(1));
}

#[test]
fn sorted_table_holds_the_same_counts_in_ranked_order() {
    let mut table = FrequencyTable::new();
    for label in ["one", "two", "two", "three", "three", "three"] {
        table.insert_or_increment(label);
    }
    let sorted = table.sorted();
    assert_eq!(sorted.get("one"), Some(1));
    assert_eq!(sorted.get("two"), Some(2));
    assert_eq!(sorted.get("three"), Some(3));
    assert_eq!(sorted.to_vec(), table.to_vec());
    let mut grown = sorted;
    grown.insert_or_increment("one");
    assert_eq!(grown.get("one"), Some(2));
}

#[test]
fn from_vec_takes_well_formed_entries_only() {
    let table = FrequencyTable::from_vec(vec![("a".to_string(), 2), ("b".to_string(), 5)])
        .expect("the entries are well formed");
    assert_eq!(table.get("a"), Some(2));
    assert_eq!(table.get("b"), Some(5));
    assert_eq!(table.to_vec(), vec![("b".to_string(), 5), ("a".to_string(), 2)]);
    let empty = FrequencyTable::from_vec(Vec::new()).expect("no entries are well formed");
    assert_eq!(empty.len(), 0);
    assert!(FrequencyTable::from_vec(vec![("a".to_string(), 1), ("a".to_string(), 1)]).is_none());
    assert!(FrequencyTable::from_vec(vec![("a".to_string(), 0)]).is_none());
    assert!(FrequencyTable::from_vec(vec![("a".to_string(), 1), ("b".to_string(), 0)]).is_none());
    let full = FrequencyTable::from_vec(vec![("a".to_string(), u64::MAX)]).expect("well formed");
    assert_eq!(full.get("a"), Some(u64::MAX));
}
