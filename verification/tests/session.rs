use qcells::models::{InverterInfo, InverterStateResponse, InvertersResponse, LoginResponse, SiteResponse, UserInfo};
use qcells::{login, Client, Double, Error, Inverter, Pair, Reply, Request, Single, Site, User, BASE_URL};

fn pair(p: &Pair) -> (&str, &str) {
    (p.name.as_str(), p.value.as_str())
}

fn pairs(list: &[Pair]) -> Vec<(&str, &str)> {
    list.iter().map(pair).collect()
}

fn guest_login(success: bool, token: &str) -> LoginResponse {
    LoginResponse {
        code: 0,
        success,
        token: token.to_string(),
        user: UserInfo {
            id: 7,
            username: "guest".to_string(),
            email: "guest@example.org".to_string(),
            country: "US".to_string(),
        },
    }
}

fn answered<T>(value: T) -> Reply<T> {
    Reply::Answered { status: 200, body: Ok(value) }
}

fn site_info(name: &str) -> SiteResponse {
    SiteResponse {
        rated_power: Single::from_bits(5.0f32.to_bits()),
        grid_power: Single::from_bits(1.5f32.to_bits()),
        total_yield: Double::from_bits(1234.5f64.to_bits()),
        total_eps_energy: Single::from_bits(2.0f32.to_bits()),
        month_eps_energy: Single::from_bits(0.5f32.to_bits()),
        month_yield: Single::from_bits(300.25f32.to_bits()),
        site_name: name.to_string(),
        inverter_num: 1,
        today_yield: Single::from_bits(12.5f32.to_bits()),
        year_yield: Double::from_bits(900.0f64.to_bits()),
        year_eps_energy: Single::from_bits(1.0f32.to_bits()),
        today_eps_energy: Single::from_bits(0.25f32.to_bits()),
    }
}

fn devices(rows: &[(&str, &str)]) -> InvertersResponse {
    InvertersResponse {
        rows: rows
            .iter()
            .map(|r| InverterInfo { sn: r.0.to_string(), wifi_sn: r.1.to_string() })
            .collect(),
    }
}

fn some(x: f64) -> Option<Double> {
    Some(Double::from_bits(x.to_bits()))
}

fn telemetry(grid_power: f64) -> InverterStateResponse {
    InverterStateResponse {
        battery_voltage: None,
        battery_capacity: None,
        battery_temperature_high: None,
        battery_temperature_low: None,
        grid_power: Double::from_bits(grid_power.to_bits()),
        array_power: [None; 12],
        inverter_power: [None; 3],
    }
}

fn sum(addends: &[Double]) -> f64 {
    let mut it = addends.iter().map(|d| f64::from_bits(d.to_bits()));
    let first = it.next().unwrap();
    it.fold(first, |a, b| a + b)
}

fn guest() -> User {
    match Client::new(answered(guest_login(true, "tok-1"))) {
        Ok(client) => client.user,
        Err(err) => panic!("{}", err.message),
    }
}

fn check_headers(request: &Request, token: Option<&str>) {
    let mut expected = vec![
        ("Accept", "application/json"),
        ("Content-Type", "application/x-www-form-urlencoded;charset=UTF-8"),
    ];
    if let Some(t) = token {
        expected.push(("token", t));
    }
    assert_eq!(pairs(&request.headers), expected);
}

#[test]
fn test_login() {
    let request = login("guest", "solax123456");
    assert_eq!(request.url, format!("{}/login/loginNew", BASE_URL));
    assert_eq!(
        pairs(&request.form),
        vec![("username", "guest"), ("userpwd", "3d40c2de8028630733e130ac0ec0ae4f")]
    );
    let client = Client::new(answered(guest_login(true, "5f2c-session")));
    let client = match client {
        Ok(client) => client,
        Err(err) => panic!("{}", err.message),
    };
    let user = client.user;
    println!("Token is: {}", user.token);
    assert_ne!(user.token, "")
}

#[test]
fn test_get_sites() {
    let client = Client::new(answered(guest_login(true, "tok-1")));
    let client = match client {
        Ok(client) => client,
        Err(err) => panic!("{}", err.message),
    };
    let ids = match guest().site_ids(answered(vec!["101".to_string(), "202".to_string()])) {
        Ok(ids) => ids,
        Err(err) => panic!("{}", err.message),
    };
    let mut outcomes = Vec::new();
    for id in &ids {
        outcomes.push(client.user.get_site(id, site_info("Roof"), answered(devices(&[("SN1", "WIFI1")]))));
    }
    let sites = guest().get_sites(outcomes);
    let sites = match sites {
        Ok(sites) => sites,
        Err(err) => panic!("{}", err.message),
    };
    assert!(!sites.is_empty());
    for site in sites {
        assert_ne!(site.id, 0);
    }
}

#[test]
fn test_get_inverters() {
    let client = Client::new(answered(guest_login(true, "tok-1")));
    let client = match client {
        Ok(client) => client,
        Err(err) => panic!("{}", err.message),
    };
    let outcomes = vec![client.user.get_site(&101, site_info("Roof"), answered(devices(&[("SN1", "WIFI1")])))];
    let sites = match guest().get_sites(outcomes) {
        Ok(sites) => sites,
        Err(err) => panic!("{}", err.message),
    };
    assert!(!sites.is_empty());
    for _site in sites {
        let mut state = telemetry(120.0);
        state.battery_voltage = some(51.2);
        state.battery_capacity = Some(Single::from_bits(87.0f32.to_bits()));
        state.battery_temperature_high = Some(Single::from_bits(24.5f32.to_bits()));
        state.battery_temperature_low = Some(Single::from_bits(21.0f32.to_bits()));
        let inverter = match _site.get_inverter(answered(state)) {
            Ok(inv) => inv,
            Err(err) => panic!("{}", err.message),
        };
        println!("{:#?}", inverter);
        if inverter.battery.is_some() {
            let battery = inverter.battery.unwrap();
            assert_ne!(f32::from_bits(battery.capacity.to_bits()), 0.0);
            assert_ne!(f32::from_bits(battery.temperature_high.to_bits()), 0.0);
            assert_ne!(f32::from_bits(battery.temperature_low.to_bits()), 0.0);
        }
    }
}

#[test]
fn login_request_has_no_token() {
    let request = login("guest", "");
    check_headers(&request, None);
    assert_eq!(
        pairs(&request.form),
        vec![("username", "guest"), ("userpwd", "d41d8cd98f00b204e9800998ecf8427e")]
    );
}

#[test]
fn login_without_success_fails() {
    match Client::new(answered(guest_login(false, "tok"))) {
        Ok(_) => panic!("a failed login gave a session"),
        Err(err) => assert_eq!(err.message, "login failed"),
    }
}

#[test]
fn login_keeps_the_profile() {
    let user = guest();
    assert_eq!(user.id, 7);
    assert_eq!(user.username, "guest");
    assert_eq!(user.email, "guest@example.org");
    assert_eq!(user.country, "US");
    assert_eq!(user.token, "tok-1");
    let copy = User::from_login(&guest_login(true, "tok-2"));
    assert_eq!(copy.token, "tok-2");
    assert_eq!(copy.id, 7);
}

#[test]
fn transport_failure_is_reported_with_its_cause() {
    let reply: Reply<LoginResponse> = Reply::Failed("connection refused".to_string());
    match Client::new(reply) {
        Ok(_) => panic!("no reply gave a session"),
        Err(err) => assert_eq!(err.message, "connection refused"),
    }
}

#[test]
fn status_outside_success_is_reported_with_its_code() {
    for (status, text) in [(404u16, "404"), (199, "199"), (300, "300"), (500, "500"), (0, "0"), (65535, "65535")] {
        let reply = Reply::Answered { status, body: Ok(guest_login(true, "tok")) };
        match reply.into_result() {
            Ok(_) => panic!("status {} passed", status),
            Err(err) => assert_eq!(err.message, format!("Received invalid status code {}", text)),
        }
    }
    for status in [200u16, 204, 299] {
        let reply = Reply::Answered { status, body: Ok(5u8) };
        assert!(matches!(reply.into_result(), Ok(5)));
    }
}

#[test]
fn undecodable_body_is_reported_with_its_cause() {
    let reply: Reply<u8> = Reply::Answered { status: 200, body: Err("expected value at line 1".to_string()) };
    match reply.into_result() {
        Ok(_) => panic!("an undecodable body passed"),
        Err(err) => {
            assert_eq!(err.message, "expected value at line 1");
            assert_eq!(err.to_text(), "expected value at line 1");
        }
    }
    let reply: Reply<u8> = Reply::Answered { status: 503, body: Err("ignored".to_string()) };
    match reply.into_result() {
        Ok(_) => panic!("status 503 passed"),
        Err(err) => assert_eq!(err.message, "Received invalid status code 503"),
    }
}

#[test]
fn requests_of_a_guest() {
    let user = guest();
    let request = user.get_sites_request();
    assert_eq!(request.url, "https://www.portal-q-cells.us/phoebus/userIndex/getUserAllSiteId");
    check_headers(&request, Some("tok-1"));
    assert_eq!(pairs(&request.form), vec![("userId", "7")]);

    let request = user.get_site_request(&18446744073709551615);
    assert_eq!(request.url, "https://www.portal-q-cells.us/phoebus/userIndex/getSiteInfo");
    check_headers(&request, Some("tok-1"));
    assert_eq!(pairs(&request.form), vec![("siteId", "18446744073709551615")]);

    let request = user.get_site_inverter_sn_request("Roof & Barn");
    assert_eq!(request.url, "https://www.portal-q-cells.us/phoebus/device/getPage");
    check_headers(&request, Some("tok-1"));
    assert_eq!(
        pairs(&request.form),
        vec![("siteName", "Roof & Barn"), ("isSub", "1"), ("size", "10"), ("current", "1")]
    );
}

#[test]
fn site_ids_are_read_in_order() {
    let reply = answered(vec!["101".to_string(), "202".to_string(), "+3".to_string(), "007".to_string()]);
    match guest().site_ids(reply) {
        Ok(ids) => assert_eq!(ids, vec![101, 202, 3, 7]),
        Err(err) => panic!("{}", err.message),
    }
    match guest().site_ids(answered(Vec::new())) {
        Ok(ids) => assert!(ids.is_empty()),
        Err(err) => panic!("{}", err.message),
    }
}

#[test]
fn one_bad_site_id_fails_the_list() {
    for bad in ["", "x", "12a", "-4", "+", "1 ", "18446744073709551616", "++1"] {
        let reply = answered(vec!["101".to_string(), bad.to_string(), "202".to_string()]);
        match guest().site_ids(reply) {
            Ok(ids) => panic!("{:?} was read as {:?}", bad, ids),
            Err(err) => assert_eq!(err.message, "Int required"),
        }
    }
    let reply: Reply<Vec<String>> = Reply::Answered { status: 401, body: Ok(Vec::new()) };
    match guest().site_ids(reply) {
        Ok(_) => panic!("status 401 passed"),
        Err(err) => assert_eq!(err.message, "Received invalid status code 401"),
    }
}

#[test]
fn device_request_follows_the_site_reply() {
    let user = guest();
    match user.site_step(answered(site_info("Roof & Barn"))) {
        Ok((info, request)) => {
            assert_eq!(info.site_name, "Roof & Barn");
            assert_eq!(info.inverter_num, 1);
            assert_eq!(request.url, "https://www.portal-q-cells.us/phoebus/device/getPage");
            check_headers(&request, Some("tok-1"));
            assert_eq!(
                pairs(&request.form),
                vec![("siteName", "Roof & Barn"), ("isSub", "1"), ("size", "10"), ("current", "1")]
            );
        }
        Err(err) => panic!("{}", err.message),
    }
}

#[test]
fn site_reply_that_failed_ends_the_site() {
    let user = guest();
    let reply: Reply<SiteResponse> = Reply::Answered { status: 500, body: Ok(site_info("Roof")) };
    match user.site_step(reply) {
        Ok(_) => panic!("status 500 passed"),
        Err(err) => assert_eq!(err.message, "Received invalid status code 500"),
    }
    match user.site_step(Reply::Failed("dns error".to_string())) {
        Ok(_) => panic!("no reply passed"),
        Err(err) => assert_eq!(err.message, "dns error"),
    }
    let reply: Reply<SiteResponse> = Reply::Answered { status: 200, body: Err("missing field".to_string()) };
    match user.site_step(reply) {
        Ok(_) => panic!("an undecodable body passed"),
        Err(err) => assert_eq!(err.message, "missing field"),
    }
}

#[test]
fn serial_numbers_come_from_the_first_row() {
    let reply = answered(devices(&[("SN1", "WIFI1"), ("SN2", "WIFI2")]));
    match guest().get_site_inverter_sn("Roof", reply) {
        Ok(serials) => assert_eq!(serials, ("SN1".to_string(), "WIFI1".to_string())),
        Err(err) => panic!("{}", err.message),
    }
}

#[test]
fn site_without_devices_is_an_error() {
    match guest().get_site_inverter_sn("Roof", answered(devices(&[]))) {
        Ok(_) => panic!("no rows gave serial numbers"),
        Err(err) => assert_eq!(err.message, "no inverters for site Roof found"),
    }
    match guest().get_site(&101, site_info("Barn"), answered(devices(&[]))) {
        Ok(_) => panic!("no rows gave a site"),
        Err(err) => assert_eq!(err.message, "no inverters for site Barn found"),
    }
    match guest().get_site(&101, site_info("Barn"), Reply::Failed("timed out".to_string())) {
        Ok(_) => panic!("no reply gave a site"),
        Err(err) => assert_eq!(err.message, "timed out"),
    }
}

#[test]
fn site_is_put_together_from_both_replies() {
    let site = match guest().get_site(&101, site_info("Roof"), answered(devices(&[("SN1", "WIFI1")]))) {
        Ok(site) => site,
        Err(err) => panic!("{}", err.message),
    };
    assert_eq!(site.id, 101);
    assert_eq!(site.site_name, "Roof");
    assert_eq!(site.serial_number, "SN1");
    assert_eq!(site.wifi_sn, "WIFI1");
    assert_eq!(site.token, "tok-1");
    assert_eq!(site.inverter_num, 1);
    assert_eq!(f32::from_bits(site.rated_power.to_bits()), 5.0);
    assert_eq!(f32::from_bits(site.grid_power.to_bits()), 1.5);
    assert_eq!(f64::from_bits(site.total_yield.to_bits()), 1234.5);
    assert_eq!(f32::from_bits(site.total_eps_energy.to_bits()), 2.0);
    assert_eq!(f32::from_bits(site.month_eps_energy.to_bits()), 0.5);
    assert_eq!(f32::from_bits(site.month_yield.to_bits()), 300.25);
    assert_eq!(f32::from_bits(site.today_yield.to_bits()), 12.5);
    assert_eq!(f64::from_bits(site.year_yield.to_bits()), 900.0);
    assert_eq!(f32::from_bits(site.year_eps_energy.to_bits()), 1.0);
    assert_eq!(f32::from_bits(site.today_eps_energy.to_bits()), 0.25);
}

#[test]
fn second_site_failing_fails_the_list() {
    let user = guest();
    let a = user.get_site(&101, site_info("A"), answered(devices(&[("SN1", "WIFI1")])));
    let b = user.get_site(&202, site_info("B"), answered(devices(&[])));
    match guest().get_sites(vec![a, b]) {
        Ok(sites) => panic!("{} sites were returned", sites.len()),
        Err(err) => assert_eq!(err.message, "no inverters for site B found"),
    }
}

#[test]
fn first_failure_wins() {
    let user = guest();
    let a = user.get_site(&101, site_info("A"), answered(devices(&[("SN1", "WIFI1")])));
    let b: Result<Site, Error> = Err(Error::new("first".to_string()));
    let c: Result<Site, Error> = Err(Error::new("second".to_string()));
    match guest().get_sites(vec![a, b, c]) {
        Ok(_) => panic!("a failure was passed over"),
        Err(err) => assert_eq!(err.message, "first"),
    }
    match guest().get_sites(Vec::new()) {
        Ok(sites) => assert!(sites.is_empty()),
        Err(err) => panic!("{}", err.message),
    }
}

#[test]
fn sites_are_asked_for_in_turn_until_one_fails() {
    let user = guest();
    let ids = vec![101, 202, 303];
    let mut outcomes = Vec::new();
    assert_eq!(user.next_site(&ids, &outcomes), Some(101));
    outcomes.push(user.get_site(&101, site_info("A"), answered(devices(&[("SN1", "WIFI1")]))));
    assert_eq!(user.next_site(&ids, &outcomes), Some(202));
    outcomes.push(user.get_site(&202, site_info("B"), answered(devices(&[]))));
    assert_eq!(user.next_site(&ids, &outcomes), None);
    assert!(user.get_sites(outcomes).is_err());

    let mut outcomes = Vec::new();
    for (at, id) in ids.iter().enumerate() {
        assert_eq!(user.next_site(&ids, &outcomes), Some(*id));
        assert_eq!(outcomes.len(), at);
        outcomes.push(user.get_site(id, site_info("A"), answered(devices(&[("SN1", "WIFI1")]))));
    }
    assert_eq!(user.next_site(&ids, &outcomes), None);
    assert_eq!(user.next_site(&Vec::new(), &Vec::new()), None);
}

#[test]
fn sites_keep_their_order() {
    let user = guest();
    let outcomes = vec![
        user.get_site(&3, site_info("C"), answered(devices(&[("S3", "W3")]))),
        user.get_site(&1, site_info("A"), answered(devices(&[("S1", "W1")]))),
        user.get_site(&2, site_info("B"), answered(devices(&[("S2", "W2")]))),
    ];
    match guest().get_sites(outcomes) {
        Ok(sites) => {
            let ids: Vec<u64> = sites.iter().map(|s| s.id).collect();
            assert_eq!(ids, vec![3, 1, 2]);
            assert_eq!(sites[1].serial_number, "S1");
        }
        Err(err) => panic!("{}", err.message),
    }
}

#[test]
fn end_to_end() {
    let client = match Client::new(answered(guest_login(true, "tok-1"))) {
        Ok(client) => client,
        Err(err) => panic!("{}", err.message),
    };
    let ids = match guest().site_ids(answered(vec!["101".to_string(), "202".to_string()])) {
        Ok(ids) => ids,
        Err(err) => panic!("{}", err.message),
    };
    assert_eq!(ids, vec![101, 202]);
    let mut outcomes = Vec::new();
    for id in &ids {
        outcomes.push(client.user.get_site(id, site_info("Roof"), answered(devices(&[("SN1", "WIFI1")]))));
    }
    let sites = match guest().get_sites(outcomes) {
        Ok(sites) => sites,
        Err(err) => panic!("{}", err.message),
    };
    assert_eq!(sites.len(), 2);
    assert_eq!(sites[0].id, 101);
    let mut state = telemetry(-500.0);
    state.array_power[0] = some(300.0);
    state.array_power[1] = some(250.0);
    assert!(state.is_complete());
    let inverter: Inverter = match sites[0].get_inverter(answered(state)) {
        Ok(inverter) => inverter,
        Err(err) => panic!("{}", err.message),
    };
    assert_eq!(f64::from_bits(inverter.grid_power_import.to_bits()), 500.0);
    assert_eq!(f64::from_bits(inverter.grid_power_export.to_bits()), 0.0);
    assert_eq!(inverter.grid_power_export.to_bits(), 0);
    assert_eq!(sum(&inverter.array_power.addends), 550.0);
    assert_eq!(sum(&inverter.power.addends), 0.0);
    assert!(inverter.battery.is_none());
}

#[test]
fn telemetry_failure_is_passed_on() {
    let reply: Reply<InverterStateResponse> = Reply::Answered { status: 502, body: Err(String::new()) };
    let site = match guest().get_site(&101, site_info("Roof"), answered(devices(&[("SN1", "WIFI1")]))) {
        Ok(site) => site,
        Err(err) => panic!("{}", err.message),
    };
    match site.get_inverter(reply) {
        Ok(_) => panic!("status 502 passed"),
        Err(err) => assert_eq!(err.message, "Received invalid status code 502"),
    }
}
