use irc_relay::extract_cap;
use irc_relay::extract_verb;

fn strify(s: &[u8]) -> &str {
    std::str::from_utf8(s).unwrap()
}

#[test]
fn test_extract_verb() {
    let inputs = {
        let tag_parts = vec!["", "@tag ", "  @tag ", "@tag   "];
        let srv_parts = vec!["", ":srv ", "  :srv ", ":srv   "];
        let end_parts = vec!["", "  ", " extra", "  extra extra"];

        let mut inputs = Vec::new();

        for tag_part in tag_parts.iter() {
            for srv_part in srv_parts.iter() {
                for end_part in end_parts.iter() {
                    inputs.push(format!("{}{}TEST{}", tag_part, srv_part, end_part));
                }
            }
        }

        assert_eq!(inputs.len(), tag_parts.len() * srv_parts.len() * end_parts.len());
        assert!(inputs.len() > 0);

        inputs
    };

    for input in inputs.iter() {
        println!("input: {}$", input);
        assert_eq!("TEST", strify(extract_verb(input.as_bytes())));
    }
}

#[test]
fn test_extract_verb_missing() {
    let inputs = {
        let tag_parts = vec!["", "@tag ", "  @tag ", "@tag   "];
        let srv_parts = vec!["", ":srv ", "  :srv ", ":srv   "];
        let end_parts = vec!["", "   "];

        let mut inputs = Vec::new();

        for tag_part in tag_parts.iter() {
            for srv_part in srv_parts.iter() {
                for end_part in end_parts.iter() {
                    inputs.push(format!("{}{}{}", tag_part, srv_part, end_part));
                }
            }
        }

        assert_eq!(inputs.len(), tag_parts.len() * srv_parts.len() * end_parts.len());
        assert!(inputs.len() > 0);

        inputs
    };

    for input in inputs.iter() {
        println!("input: {}$", input);
        assert_eq!("", strify(extract_verb(input.as_bytes())));
    }
}

#[test]
fn test_extract_cap_client_with_colon() {
    let inputs = vec![
        "CAP REQ :multi-prefix sasl",
        "   CAP  REQ    :multi-prefix sasl",
        "   CAP  REQ  *   :multi-prefix sasl",
        "  @tag     CAP        REQ      :multi-prefix sasl",
    ];

    for input in inputs.iter() {
        println!("input: {}$", input);
        let cap = extract_cap(input.as_bytes(), false).unwrap();
        assert_eq!("REQ", strify(cap.subcommand));
        assert_eq!("multi-prefix sasl", strify(cap.trailing));
    }
}

#[test]
fn test_extract_cap_client_no_colon() {
    let inputs = vec![
        "CAP REQ multi-prefix sasl",
        "   CAP  REQ    multi-prefix    sasl    ",
        "     @tag      CAP  REQ    multi-prefix sasl    ",
    ];

    for input in inputs.iter() {
        println!("input: {}$", input);
        let cap = extract_cap(input.as_bytes(), false).unwrap();
        assert_eq!("REQ", strify(cap.subcommand));
        assert_eq!("sasl", strify(cap.trailing));
    }
}

#[test]
fn test_extract_cap_server_with_colon() {
    let inputs = vec![
        "CAP * ACK :multi-prefix sasl",
        "CAP * ACK * :multi-prefix sasl",
        "   CAP  *  ACK    :multi-prefix sasl",
        "   CAP  *  ACK  *  :multi-prefix sasl",
        "  @tag     CAP      * ACK      :multi-prefix sasl",
        "  @tag  CAP  you ACK      :multi-prefix sasl",
        "  @tag  CAP  you ACK  *    :multi-prefix sasl",
        ":me CAP you ACK :multi-prefix sasl",
    ];

    for input in inputs.iter() {
        println!("input: {}$", input);
        let cap = extract_cap(input.as_bytes(), true).unwrap();
        assert_eq!("ACK", strify(cap.subcommand));
        assert_eq!("multi-prefix sasl", strify(cap.trailing));
    }
}

#[test]
fn test_extract_cap_server_no_colon() {
    let inputs = vec![
        "CAP * ACK multi-prefix  sasl",
        "   CAP  *  ACK    multi-prefix sasl  ",
        "  @tag     CAP      * ACK      multi-prefix  sasl",
        "  @tag  CAP  you ACK      multi-prefix sasl     ",
        ":me CAP you ACK multi-prefix sasl ",
    ];

    for input in inputs.iter() {
        println!("input: {}$", input);
        let cap = extract_cap(input.as_bytes(), true).unwrap();
        assert_eq!("ACK", strify(cap.subcommand));
        assert_eq!("sasl", strify(cap.trailing));
    }
}

#[test]
fn test_extract_cap_invalid() {
    let inputs = vec!["NICK", "@tag NICK", ":me NICK", "@tag :me NICK", "NICK extra"];

    for input in inputs.iter() {
        println!("input: {}$", input);
        assert!(extract_cap(input.as_bytes(), false).is_none());
    }
}
