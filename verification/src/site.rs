//! A site: an installation with its meter totals and its inverter.
use vstd::prelude::*;
use vstd::string::*;
use crate::clock::Moment;
use crate::error::Error;
use crate::inverter::Inverter;
use crate::models::{InverterStateResponse, SiteResponse};
use crate::number::{Double, Single};
use crate::transport::{pairs, posted, Pair, Posted, Reply, Request};

verus! {

/// A site of a user, with the serial numbers of its inverter and the token
/// under which its telemetry is asked for.
pub struct Site {
    pub id: u64,
    pub rated_power: Single,
    pub grid_power: Single,
    pub total_yield: Double,
    pub total_eps_energy: Single,
    pub month_eps_energy: Single,
    pub month_yield: Single,
    pub site_name: String,
    pub inverter_num: i16,
    pub serial_number: String,
    pub wifi_sn: String,
    pub today_yield: Single,
    pub year_yield: Double,
    pub year_eps_energy: Single,
    pub today_eps_energy: Single,
    pub token: String,
}

impl Site {
    /// Whether the site is the one with this id, token and pair of serial
    /// numbers, and with the name and totals of `response`.
    pub open spec fn made_of(
        self,
        id: u64,
        token: String,
        serial_number: Seq<char>,
        wifi_sn: Seq<char>,
        response: SiteResponse,
    ) -> bool {
        &&& self.id == id
        &&& self.token == token
        &&& self.serial_number@ == serial_number
        &&& self.wifi_sn@ == wifi_sn
        &&& self.site_name == response.site_name
        &&& self.inverter_num == response.inverter_num
        &&& self.rated_power == response.rated_power
        &&& self.grid_power == response.grid_power
        &&& self.total_yield == response.total_yield
        &&& self.total_eps_energy == response.total_eps_energy
        &&& self.month_eps_energy == response.month_eps_energy
        &&& self.month_yield == response.month_yield
        &&& self.today_yield == response.today_yield
        &&& self.year_yield == response.year_yield
        &&& self.year_eps_energy == response.year_eps_energy
        &&& self.today_eps_energy == response.today_eps_energy
    }

    /// The telemetry request of this site for the moment `now`.
    pub open spec fn inverter_request(self, now: Moment) -> Posted {
        posted(
            "/device/getInverterFromRedis"@,
            Some(self.token@),
            seq![
                ("inverterSN"@, self.serial_number@),
                ("currentTime"@, now.stamp()),
                ("wifiSN"@, self.wifi_sn@),
            ],
        )
    }

    /// Puts a site together from what the portal said of it.
    pub fn from_response(
        id: &u64,
        token: String,
        serial_number: &str,
        wifi_sn: &str,
        response: SiteResponse,
    ) -> (r: Site)
        ensures
            r.made_of(*id, token, serial_number@, wifi_sn@, response),
    {
        Site {
            id: *id,
            rated_power: response.rated_power,
            grid_power: response.grid_power,
            total_yield: response.total_yield,
            total_eps_energy: response.total_eps_energy,
            month_eps_energy: response.month_eps_energy,
            month_yield: response.month_yield,
            site_name: response.site_name,
            inverter_num: response.inverter_num,
            serial_number: String::from_str(serial_number),
            wifi_sn: String::from_str(wifi_sn),
            today_yield: response.today_yield,
            year_yield: response.year_yield,
            year_eps_energy: response.year_eps_energy,
            today_eps_energy: response.today_eps_energy,
            token,
        }
    }

    /// The request for this site's telemetry, stamped with the moment `now`.
    pub fn inverter_request_at(&self, now: &Moment) -> (r: Request)
        ensures
            r@ == self.inverter_request(*now),
    {
        let stamp = now.to_stamp();
        let mut form: Vec<Pair> = Vec::new();
        form.push(Pair::new("inverterSN", self.serial_number.as_str()));
        form.push(Pair::new("currentTime", stamp.as_str()));
        form.push(Pair::new("wifiSN", self.wifi_sn.as_str()));
        assert(pairs(form@) =~= seq![
            ("inverterSN"@, self.serial_number@),
            ("currentTime"@, now.stamp()),
            ("wifiSN"@, self.wifi_sn@),
        ]);
        Request::post("/device/getInverterFromRedis", Some(self.token.as_str()), form)
    }

    /// The request for this site's telemetry, stamped with the local time at
    /// which it is made.
    pub fn get_inverter_request(&self) -> (r: Request)
        ensures
            exists|now: Moment| now.in_range() && r@ == self.inverter_request(now),
    {
        let now = Moment::local_now();
        self.inverter_request_at(&now)
    }

    /// The inverter's state, from the reply to the telemetry request.
    pub fn get_inverter(&self, reply: Reply<InverterStateResponse>) -> (r: Result<Inverter, Error>)
        requires
            reply.outcome() matches Ok(state) ==> state.complete(),
        ensures
            match reply.outcome() {
                Ok(state) => r matches Ok(inverter) && inverter.derived_from(state),
                Err(message) => r matches Err(e) && e@ == message,
            },
    {
        match reply.into_result() {
            Ok(state) => Ok(Inverter::from_inverter_state(state)),
            Err(e) => Err(e),
        }
    }
}

} // verus!
