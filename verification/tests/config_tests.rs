use swap::config::{Bitcoin, Config, Data, Monero, Network};

const DEFAULT_LISTEN_ADDRESS: &str = "/ip4/0.0.0.0/tcp/9939";
const DEFAULT_ELECTRUM_RPC_URL: &str = "ssl://electrum.blockstream.info:60002";
const DEFAULT_MONERO_WALLET_RPC_TESTNET_URL: &str = "http://127.0.0.1:38083/json_rpc";
const DEFAULT_WALLET_NAME: &str = "asb-wallet";

fn testnet_config() -> Config {
    Config {
        data: Data { dir: String::new() },
        network: Network {
            listen: DEFAULT_LISTEN_ADDRESS.to_string(),
        },
        bitcoin: Bitcoin {
            electrum_rpc_url: DEFAULT_ELECTRUM_RPC_URL.to_string(),
        },
        monero: Monero {
            wallet_rpc_url: DEFAULT_MONERO_WALLET_RPC_TESTNET_URL.to_string(),
            wallet_name: DEFAULT_WALLET_NAME.to_string(),
            wallet_password: "".to_string(),
        },
    }
}

#[test]
fn config_roundtrip() {
    let expected = testnet_config();
    let toml = expected.to_toml();
    let actual = Config::read(toml.as_str()).unwrap();
    assert_eq!(expected, actual);
}

#[test]
fn to_toml_renders_canonical_text() {
    let config = testnet_config();
    let expected = "[data]\ndir = \"\"\n\n[network]\nlisten = \"/ip4/0.0.0.0/tcp/9939\"\n\n[bitcoin]\nelectrum_rpc_url = \"ssl://electrum.blockstream.info:60002\"\n\n[monero]\nwallet_rpc_url = \"http://127.0.0.1:38083/json_rpc\"\nwallet_name = \"asb-wallet\"\nwallet_password = \"\"\n";
    assert_eq!(config.to_toml(), expected);
}

#[test]
fn read_parses_handwritten_text() {
    let text = "[data]\ndir = \"/var/lib/asb\"\n\n[network]\nlisten = \"/ip4/127.0.0.1/tcp/9939\"\n\n[bitcoin]\nelectrum_rpc_url = \"tcp://localhost:50001\"\n\n[monero]\nwallet_rpc_url = \"http://localhost:38083/json_rpc\"\nwallet_name = \"wallet\"\nwallet_password = \"hunter2\"\n";
    let config = Config::read(text).unwrap();
    assert_eq!(config.data.dir, "/var/lib/asb");
    assert_eq!(config.network.listen, "/ip4/127.0.0.1/tcp/9939");
    assert_eq!(config.bitcoin.electrum_rpc_url, "tcp://localhost:50001");
    assert_eq!(config.monero.wallet_rpc_url, "http://localhost:38083/json_rpc");
    assert_eq!(config.monero.wallet_name, "wallet");
    assert_eq!(config.monero.wallet_password, "hunter2");
}

#[test]
fn read_rejects_text_that_is_not_a_config() {
    assert!(Config::read("").is_err());
    assert!(Config::read("not a config at all").is_err());
    assert!(Config::read("[data]\ndir = \"x\"\n").is_err());
    // A truncated rendering is rejected.
    let full = testnet_config().to_toml();
    let truncated = &full[..full.len() - 2];
    assert!(Config::read(truncated).is_err());
    // Trailing garbage is rejected.
    let mut extended = full.clone();
    extended.push_str("extra = \"x\"\n");
    assert!(Config::read(extended.as_str()).is_err());
}

#[test]
fn is_valid_accepts_printable_ascii_and_refuses_quotes() {
    assert!(testnet_config().is_valid());
    let mut bad = testnet_config();
    bad.monero.wallet_password = "a\"b".to_string();
    assert!(!bad.is_valid());
    let mut bad2 = testnet_config();
    bad2.data.dir = "c:\\swap".to_string();
    assert!(!bad2.is_valid());
}
