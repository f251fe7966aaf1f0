use auth_gateway::supabase::client::SupabaseClient;

#[test]
fn client_needs_both_configuration_values() {
    let missing_url = SupabaseClient::new(None, Some("key".to_string()));
    assert_eq!(missing_url.err(), Some("Missing SUPABASE_URL environment variable".to_string()));

    let missing_both = SupabaseClient::new(None, None);
    assert_eq!(missing_both.err(), Some("Missing SUPABASE_URL environment variable".to_string()));

    let missing_key = SupabaseClient::new(Some("https://p.example".to_string()), None);
    assert_eq!(
        missing_key.err(),
        Some("Missing SUPABASE_ANON_KEY environment variable".to_string())
    );
}

#[test]
fn client_builds_authentication_addresses() {
    let client =
        SupabaseClient::new(Some("https://p.example".to_string()), Some("anon".to_string()))
            .ok()
            .unwrap();
    assert_eq!(client.auth_url("/signup"), "https://p.example/auth/v1/signup");
    assert_eq!(client.auth_url(""), "https://p.example/auth/v1");
    assert_eq!(client.anon_key(), "anon");
    assert_eq!(client.url(), "https://p.example");
}
