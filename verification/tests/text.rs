use jupiter_swap_api_client::text::{decimal_string, join_with_commas};

fn names(list: &[&str]) -> Vec<String> {
    list.iter().map(|name| name.to_string()).collect()
}

#[test]
fn decimal_of_zero_is_one_digit() {
    assert_eq!(decimal_string(0), "0");
}

#[test]
fn decimal_of_single_digits() {
    assert_eq!(decimal_string(7), "7");
    assert_eq!(decimal_string(9), "9");
}

#[test]
fn decimal_at_the_powers_of_ten() {
    assert_eq!(decimal_string(10), "10");
    assert_eq!(decimal_string(99), "99");
    assert_eq!(decimal_string(100), "100");
    assert_eq!(decimal_string(1_000_000), "1000000");
}

#[test]
fn decimal_of_the_largest_number() {
    assert_eq!(decimal_string(u64::MAX), "18446744073709551615");
}

#[test]
fn decimal_agrees_with_the_standard_formatting() {
    for n in [1u64, 12, 123, 4_096, 65_535, 1_234_567_890, 9_007_199_254_740_993] {
        assert_eq!(decimal_string(n), n.to_string());
    }
}

#[test]
fn joining_no_names_gives_the_empty_string() {
    assert_eq!(join_with_commas(&names(&[])), "");
}

#[test]
fn joining_one_name_gives_the_name() {
    assert_eq!(join_with_commas(&names(&["Orca"])), "Orca");
}

#[test]
fn joining_names_puts_commas_between_them() {
    assert_eq!(join_with_commas(&names(&["Orca", "Raydium", "Meteora DLMM"])), "Orca,Raydium,Meteora DLMM");
}

#[test]
fn joining_keeps_empty_names() {
    assert_eq!(join_with_commas(&names(&["", "a", ""])), ",a,");
    assert_eq!(join_with_commas(&names(&[""])), "");
}
