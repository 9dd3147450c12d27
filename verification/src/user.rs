//! The user who is logged in, and the sites that belong to them.
use vstd::prelude::*;
use vstd::string::*;
use crate::error::{agrees, Error};
use crate::models::{InvertersResponse, LoginResponse, SiteResponse};
use crate::site::Site;
use crate::text::{decimal, decimal_text, parse_unsigned, unsigned_value};
use crate::transport::{pairs, posted, Pair, Reply, Request};

verus! {

/// A user of the portal, with the token of their session.
pub struct User {
    pub id: u64,
    pub username: String,
    pub email: String,
    pub country: String,
    pub token: String,
}

/// The message for a site without devices.
pub open spec fn no_inverters_message(site_name: Seq<char>) -> Seq<char> {
    "no inverters for site "@ + site_name + " found"@
}

/// The pair of serial numbers that a reply to the device request gives for
/// the site of that name: those of the first row, the inverter's before the
/// network module's. A reply without rows is an error.
pub open spec fn serials_of(
    site_name: Seq<char>,
    reply: Reply<InvertersResponse>,
) -> Result<(String, String), Seq<char>> {
    match reply.outcome() {
        Err(message) => Err(message),
        Ok(list) => if list.rows@.len() == 0 {
            Err(no_inverters_message(site_name))
        } else {
            Ok((list.rows@[0].sn, list.rows@[0].wifi_sn))
        },
    }
}

/// Whether a reply to the device request arrived whole and lists no device.
pub open spec fn without_rows(reply: Reply<InvertersResponse>) -> bool {
    reply.outcome() matches Ok(list) && list.rows@.len() == 0
}

/// Whether every text of a list denotes a site id.
pub open spec fn all_ids(ids: Seq<String>) -> bool {
    forall|i: int| 0 <= i < ids.len() ==> unsigned_value(#[trigger] ids[i]@).is_some()
}

impl User {
    /// The user that a login response describes.
    pub open spec fn of_login(resp: LoginResponse) -> User {
        User {
            id: resp.user.id,
            username: resp.user.username,
            email: resp.user.email,
            country: resp.user.country,
            token: resp.token,
        }
    }

    /// The user who logged in, from the response to the login.
    pub fn from_login(resp: &LoginResponse) -> (r: User)
        ensures
            r == User::of_login(*resp),
    {
        User {
            id: resp.user.id,
            username: resp.user.username.clone(),
            email: resp.user.email.clone(),
            country: resp.user.country.clone(),
            token: resp.token.clone(),
        }
    }

    /// The request for the ids of all sites of this user.
    pub fn get_sites_request(&self) -> (r: Request)
        ensures
            r@ == posted(
                "/userIndex/getUserAllSiteId"@,
                Some(self.token@),
                seq![("userId"@, decimal(self.id as nat))],
            ),
    {
        let id = decimal_text(self.id);
        let mut form: Vec<Pair> = Vec::new();
        form.push(Pair::new("userId", id.as_str()));
        assert(pairs(form@) =~= seq![("userId"@, decimal(self.id as nat))]);
        Request::post("/userIndex/getUserAllSiteId", Some(self.token.as_str()), form)
    }

    /// The site ids in the reply to the request for them: each text of the
    /// list read as a number, in order. One text that is no number fails the
    /// whole list.
    pub fn site_ids(&self, reply: Reply<Vec<String>>) -> (r: Result<Vec<u64>, Error>)
        ensures
            match reply.outcome() {
                Err(message) => r matches Err(e) && e@ == message,
                Ok(texts) => if all_ids(texts@) {
                    &&& r matches Ok(ids)
                    &&& ids@.len() == texts@.len()
                    &&& forall|i: int|
                        0 <= i < ids@.len() ==> unsigned_value(#[trigger] texts@[i]@) == Some(
                            ids@[i],
                        )
                } else {
                    r matches Err(e) && e@ == "Int required"@
                },
            },
    {
        let texts = match reply.into_result() {
            Ok(texts) => texts,
            Err(e) => {
                return Err(e);
            },
        };
        let mut ids: Vec<u64> = Vec::new();
        let mut i: usize = 0;
        while i < texts.len()
            invariant
                reply.outcome() == Ok::<Vec<String>, Seq<char>>(texts),
                i <= texts@.len(),
                ids@.len() == i,
                forall|k: int|
                    0 <= k < i ==> unsigned_value(#[trigger] texts@[k]@) == Some(ids@[k]),
            decreases texts@.len() - i,
        {
            match parse_unsigned(texts[i].as_str()) {
                Some(id) => {
                    ids.push(id);
                },
                None => {
                    assert(unsigned_value(texts@[i as int]@).is_none());
                    return Err(Error::new(String::from_str("Int required")));
                },
            }
            i += 1;
        }
        Ok(ids)
    }

    /// The request for the name and totals of the site with this id.
    pub fn get_site_request(&self, id: &u64) -> (r: Request)
        ensures
            r@ == posted(
                "/userIndex/getSiteInfo"@,
                Some(self.token@),
                seq![("siteId"@, decimal(*id as nat))],
            ),
    {
        let text = decimal_text(*id);
        let mut form: Vec<Pair> = Vec::new();
        form.push(Pair::new("siteId", text.as_str()));
        assert(pairs(form@) =~= seq![("siteId"@, decimal(*id as nat))]);
        Request::post("/userIndex/getSiteInfo", Some(self.token.as_str()), form)
    }

    /// The request for the devices of the site with this name: the first
    /// page of ten.
    pub fn get_site_inverter_sn_request(&self, site_name: &str) -> (r: Request)
        ensures
            r@ == posted(
                "/device/getPage"@,
                Some(self.token@),
                seq![
                    ("siteName"@, site_name@),
                    ("isSub"@, "1"@),
                    ("size"@, "10"@),
                    ("current"@, "1"@),
                ],
            ),
    {
        let mut form: Vec<Pair> = Vec::new();
        form.push(Pair::new("siteName", site_name));
        form.push(Pair::new("isSub", "1"));
        form.push(Pair::new("size", "10"));
        form.push(Pair::new("current", "1"));
        assert(pairs(form@) =~= seq![
            ("siteName"@, site_name@),
            ("isSub"@, "1"@),
            ("size"@, "10"@),
            ("current"@, "1"@),
        ]);
        Request::post("/device/getPage", Some(self.token.as_str()), form)
    }

    /// The step between the two requests for a site: from the reply to the
    /// site request, the site's name and totals together with the device
    /// request for that name. Where the reply gives no site, there is no
    /// device request, only the reply's error.
    pub fn site_step(
        &self,
        site: Reply<SiteResponse>,
    ) -> (r: Result<(SiteResponse, Request), Error>)
        ensures
            match site.outcome() {
                Ok(info) => r matches Ok(next) && next.0 == info && next.1@ == posted(
                    "/device/getPage"@,
                    Some(self.token@),
                    seq![
                        ("siteName"@, info.site_name@),
                        ("isSub"@, "1"@),
                        ("size"@, "10"@),
                        ("current"@, "1"@),
                    ],
                ),
                Err(message) => r matches Err(e) && e@ == message,
            },
    {
        match site.into_result() {
            Ok(info) => {
                let request = self.get_site_inverter_sn_request(info.site_name.as_str());
                Ok((info, request))
            },
            Err(e) => Err(e),
        }
    }

    /// The serial numbers of a site's inverter and of its network module,
    /// from the reply to the device request for the site of that name.
    pub fn get_site_inverter_sn(
        &self,
        site_name: &str,
        reply: Reply<InvertersResponse>,
    ) -> (r: Result<(String, String), Error>)
        ensures
            agrees(r, serials_of(site_name@, reply)),
            without_rows(reply) ==> (r matches Err(e) && e@ == no_inverters_message(site_name@)),
    {
        let list = match reply.into_result() {
            Ok(list) => list,
            Err(e) => {
                return Err(e);
            },
        };
        if list.rows.len() == 0 {
            let message = String::from_str("no inverters for site ").concat(site_name).concat(
                " found",
            );
            return Err(Error::new(message));
        }
        let first = &list.rows[0];
        Ok((first.sn.clone(), first.wifi_sn.clone()))
    }

    /// The site with this id, from its name and totals and from the reply to
    /// the device request for its name.
    pub fn get_site(
        &self,
        id: &u64,
        info: SiteResponse,
        devices: Reply<InvertersResponse>,
    ) -> (r: Result<Site, Error>)
        ensures
            match serials_of(info.site_name@, devices) {
                Ok(serials) => r matches Ok(site) && site.made_of(
                    *id,
                    self.token,
                    serials.0@,
                    serials.1@,
                    info,
                ),
                Err(message) => r matches Err(e) && e@ == message,
            },
            without_rows(devices) ==> (r matches Err(e) && e@ == no_inverters_message(
                info.site_name@,
            )),
    {
        let serials = match self.get_site_inverter_sn(info.site_name.as_str(), devices) {
            Ok(serials) => serials,
            Err(e) => {
                return Err(e);
            },
        };
        Ok(
            Site::from_response(
                id,
                self.token.clone(),
                serials.0.as_str(),
                serials.1.as_str(),
                info,
            ),
        )
    }

    /// The id of the site to get next, while getting the sites of `ids` in
    /// turn with these outcomes so far: none once a site has failed or every
    /// id has its outcome.
    pub fn next_site(
        &self,
        ids: &Vec<u64>,
        outcomes: &Vec<Result<Site, Error>>,
    ) -> (r: Option<u64>)
        ensures
            r == if outcomes@.len() >= ids@.len() || (outcomes@.len() > 0
                && outcomes@.last().is_err()) {
                None
            } else {
                Some(ids@[outcomes@.len() as int])
            },
    {
        let done = outcomes.len();
        if done >= ids.len() {
            None
        } else if done > 0 && outcomes[done - 1].is_err() {
            None
        } else {
            Some(ids[done])
        }
    }

    /// All sites, from the outcome of getting each in turn: the sites in
    /// that order where each was had, else the first failure and no site.
    pub fn get_sites(&self, outcomes: Vec<Result<Site, Error>>) -> (r: Result<Vec<Site>, Error>)
        ensures
            r.is_ok() <==> forall|i: int|
                0 <= i < outcomes@.len() ==> (#[trigger] outcomes@[i]).is_ok(),
            match r {
                Ok(sites) => {
                    &&& sites@.len() == outcomes@.len()
                    &&& forall|i: int|
                        0 <= i < sites@.len() ==> #[trigger] outcomes@[i] == Ok::<Site, Error>(
                            sites@[i],
                        )
                },
                Err(e) => exists|first: int|
                    {
                        &&& 0 <= first < outcomes@.len()
                        &&& #[trigger] outcomes@[first] == Err::<Site, Error>(e)
                        &&& forall|i: int| 0 <= i < first ==> (#[trigger] outcomes@[i]).is_ok()
                    },
            },
    {
        let mut rest = outcomes;
        let mut sites: Vec<Site> = Vec::new();
        while rest.len() > 0
            invariant
                sites@.len() + rest@.len() == outcomes@.len(),
                rest@ == outcomes@.skip(sites@.len() as int),
                forall|i: int|
                    0 <= i < sites@.len() ==> #[trigger] outcomes@[i] == Ok::<Site, Error>(
                        sites@[i],
                    ),
            decreases rest@.len(),
        {
            let ghost at = sites@.len() as int;
            assert(rest@[0] == outcomes@[at]);
            let outcome = rest.remove(0);
            match outcome {
                Ok(site) => {
                    sites.push(site);
                },
                Err(e) => {
                    return Err(e);
                },
            }
            assert(rest@ =~= outcomes@.skip(sites@.len() as int));
        }
        Ok(sites)
    }
}

} // verus!
