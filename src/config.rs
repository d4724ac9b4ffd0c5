use vstd::prelude::*;

verus! {

/// Settings of the kiosk: the API token, the pages and devices it uses.
#[derive(Debug, Clone)]
pub struct Config {
    pub token: Option<String>,
    pub home_assistant_url: String,
    pub cashcode_serial_port: String,
    pub stats_db_path: String,
}

impl Default for Config {
    fn default() -> (r: Self)
        ensures
            r.token is None,
            r.home_assistant_url@ == "http://localhost:8123"@,
            r.cashcode_serial_port@
                == "/dev/serial/by-id/usb-Prolific_Technology_Inc._USB-Serial_Controller_D-if00-port0"@,
            r.stats_db_path@ == "data/Stats.db"@,
    {
        Config {
            token: None,
            home_assistant_url: String::from_str("http://localhost:8123"),
            cashcode_serial_port: String::from_str(
                "/dev/serial/by-id/usb-Prolific_Technology_Inc._USB-Serial_Controller_D-if00-port0",
            ),
            stats_db_path: String::from_str("data/Stats.db"),
        }
    }
}

} // verus!
