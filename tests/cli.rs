use coin_price::cli::cli_tokens;

#[test]
fn cli_without_token() {
    assert_eq!(cli_tokens(&vec!["prog".to_string()]), None);
    assert_eq!(cli_tokens(&Vec::new()), None);
}

#[test]
fn cli_tokens_normalized() {
    let args = vec!["prog".to_string(), " BitCoin ".to_string(), "SOLANA".to_string()];
    assert_eq!(cli_tokens(&args), Some(vec!["bitcoin".to_string(), "solana".to_string()]));
}
