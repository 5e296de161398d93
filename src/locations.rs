use vstd::prelude::*;
use crate::client::{Client, key_param, url_text};
use crate::error::Error;
use crate::params::{Params, qs_encoding, qs_value_to_string};

verus! {

/// What kind of place a location is.
#[derive(Debug, Clone, Copy, PartialEq, Eq, Structural)]
pub enum EntityType {
    Address,
    Neighborhood,
    PopulatedPlace,
    Postcode1,
    AdminDivision1,
    AdminDivision2,
    CountryRegion,
    // Missing in the service's documentation, but returned in practice.
    Postcode2,
    RoadBlock,
    HigherEducationFacility,
    Park,
    Lake,
    River,
}

/// The name of an entity type on the wire.
pub open spec fn entity_name(e: EntityType) -> Seq<char> {
    match e {
        EntityType::Address => "Address"@,
        EntityType::Neighborhood => "Neighborhood"@,
        EntityType::PopulatedPlace => "PopulatedPlace"@,
        EntityType::Postcode1 => "Postcode1"@,
        EntityType::AdminDivision1 => "AdminDivision1"@,
        EntityType::AdminDivision2 => "AdminDivision2"@,
        EntityType::CountryRegion => "CountryRegion"@,
        EntityType::Postcode2 => "Postcode2"@,
        EntityType::RoadBlock => "RoadBlock"@,
        EntityType::HigherEducationFacility => "HigherEducationFacility"@,
        EntityType::Park => "Park"@,
        EntityType::Lake => "Lake"@,
        EntityType::River => "River"@,
    }
}

impl EntityType {
    /// The name of the entity type on the wire.
    pub fn name(&self) -> (r: &'static str)
        ensures
            r@ == entity_name(*self),
    {
        match self {
            EntityType::Address => "Address",
            EntityType::Neighborhood => "Neighborhood",
            EntityType::PopulatedPlace => "PopulatedPlace",
            EntityType::Postcode1 => "Postcode1",
            EntityType::AdminDivision1 => "AdminDivision1",
            EntityType::AdminDivision2 => "AdminDivision2",
            EntityType::CountryRegion => "CountryRegion",
            EntityType::Postcode2 => "Postcode2",
            EntityType::RoadBlock => "RoadBlock",
            EntityType::HigherEducationFacility => "HigherEducationFacility",
            EntityType::Park => "Park",
            EntityType::Lake => "Lake",
            EntityType::River => "River",
        }
    }
}

/// The postal address of a location; each part may be missing.
#[derive(Debug, Clone)]
pub struct Address {
    /// The street address.
    pub address_line: Option<String>,
    /// The neighborhood.
    pub neighborhood: Option<String>,
    /// The city or town.
    pub locality: Option<String>,
    /// The post code.
    pub postal_code: Option<String>,
    /// The first administrative subdivision, such as a state.
    pub admin_district1: Option<String>,
    /// The second administrative subdivision, such as a county.
    pub admin_district2: Option<String>,
    /// The country or region.
    pub country: Option<String>,
    /// The ISO 3166-1 alpha-2 code of the country or region.
    pub country_iso: Option<String>,
    /// A landmark near the location.
    pub landmark: Option<String>,
    /// The whole address on one line.
    pub formatted: Option<String>,
}

/// How sure the service is of a match.
#[derive(Debug, Clone, Copy, PartialEq, Eq, Structural)]
pub enum Confidence {
    High,
    Medium,
    Low,
}

/// How a location matched the query.
#[derive(Debug, Clone, Copy, PartialEq, Eq, Structural)]
pub enum MatchCode {
    Good,
    Ambiguous,
    UpHierarchy,
}

/// The parts separated by commas.
pub open spec fn join(parts: Seq<Seq<char>>) -> Seq<char>
    decreases parts.len(),
{
    if parts.len() == 0 {
        Seq::empty()
    } else if parts.len() == 1 {
        parts[0]
    } else {
        join(parts.drop_last()) + ","@ + parts.last()
    }
}

pub open spec fn entity_names(types: Seq<EntityType>) -> Seq<Seq<char>> {
    types.map_values(|e: EntityType| entity_name(e))
}

pub open spec fn texts(v: Seq<String>) -> Seq<Seq<char>> {
    v.map_values(|s: String| s@)
}

proof fn lemma_join_step(parts: Seq<Seq<char>>, i: int)
    requires
        1 <= i < parts.len(),
    ensures
        join(parts.take(i + 1)) == join(parts.take(i)) + ","@ + parts[i],
{
    assert(parts.take(i + 1).drop_last() =~= parts.take(i));
}

/// The names of `types`, separated by commas.
pub fn join_names(types: &Vec<EntityType>) -> (r: String)
    ensures
        r@ == join(entity_names(types@)),
{
    let ghost parts = entity_names(types@);
    let mut r = String::new();
    let mut i: usize = 0;
    while i < types.len()
        invariant
            i <= types.len(),
            parts == entity_names(types@),
            r@ == join(parts.take(i as int)),
        decreases types.len() - i,
    {
        if i > 0 {
            r.append(",");
            proof {
                lemma_join_step(parts, i as int);
            }
        } else {
            assert(parts.take(1) =~= seq![parts[0]]);
        }
        r.append(types[i].name());
        i = i + 1;
    }
    assert(parts.take(types.len() as int) =~= parts);
    r
}

/// The strings of `values`, separated by commas.
pub fn join_texts(values: &Vec<String>) -> (r: String)
    ensures
        r@ == join(texts(values@)),
{
    let ghost parts = texts(values@);
    let mut r = String::new();
    let mut i: usize = 0;
    while i < values.len()
        invariant
            i <= values.len(),
            parts == texts(values@),
            r@ == join(parts.take(i as int)),
        decreases values.len() - i,
    {
        if i > 0 {
            r.append(",");
            proof {
                lemma_join_step(parts, i as int);
            }
        } else {
            assert(parts.take(1) =~= seq![parts[0]]);
        }
        r.append(values[i].as_str());
        i = i + 1;
    }
    assert(parts.take(values.len() as int) =~= parts);
    r
}

/// The point of a point-to-address lookup and what to include in the answer.
pub struct FindPoint {
    /// The latitude and longitude, separated by a comma.
    pub point: String,
    /// The kinds of place to return; all kinds when empty.
    pub include_entity_types: Vec<EntityType>,
    /// Whether to include the neighborhood in the address.
    pub include_neighborhood: bool,
    /// Whether to include the ISO code of the country in the address.
    pub include_ciso2: bool,
}

impl Default for FindPoint {
    fn default() -> (r: FindPoint)
        ensures
            r.point@ == Seq::<char>::empty(),
            r.include_entity_types@ == Seq::<EntityType>::empty(),
            !r.include_neighborhood,
            !r.include_ciso2,
    {
        FindPoint {
            point: String::new(),
            include_entity_types: Vec::new(),
            include_neighborhood: false,
            include_ciso2: false,
        }
    }
}

impl FindPoint {
    /// A lookup of a point given as text, `"<latitude>,<longitude>"`, used
    /// as it is.
    pub fn from_str(latlng: &str) -> (r: FindPoint)
        ensures
            r.point@ == latlng@,
            r.include_entity_types@.len() == 0,
            !r.include_neighborhood,
            !r.include_ciso2,
    {
        let mut params = FindPoint::default();
        params.point = String::from_str(latlng);
        params
    }

    /// The endpoint path of this lookup.
    pub fn path(&self) -> (r: String)
        ensures
            r@ == "/Locations/"@ + self.point@,
    {
        let mut s = String::from_str("/Locations/");
        s.append(self.point.as_str());
        s
    }
}

/// Hints that bias or localize the results of a lookup; each is optional.
pub struct ContextParams {
    /// The culture of the answer, such as `en-US`.
    pub culture: Option<String>,
    /// The area that the user sees: south latitude, west longitude, north
    /// latitude and east longitude, each as a decimal number.
    pub user_map_view: Option<Vec<String>>,
    /// The user's latitude and longitude, each as a decimal number.
    pub user_location: Option<Vec<String>>,
    /// The user's IP address.
    pub user_ip: Option<String>,
    /// The user's region, as an ISO 3166-2 code.
    pub user_region: Option<String>,
}

impl Default for ContextParams {
    fn default() -> (r: ContextParams)
        ensures
            r.culture is None,
            r.user_map_view is None,
            r.user_location is None,
            r.user_ip is None,
            r.user_region is None,
    {
        ContextParams {
            culture: None,
            user_map_view: None,
            user_location: None,
            user_ip: None,
            user_region: None,
        }
    }
}

/// The parameters that the flags of a point lookup ask for.
pub open spec fn point_flags(find: FindPoint) -> Map<Seq<char>, Seq<char>> {
    let m0 = Map::<Seq<char>, Seq<char>>::empty();
    let m1 = if find.include_entity_types@.len() > 0 {
        m0.insert("include_entity_types"@, join(entity_names(find.include_entity_types@)))
    } else {
        m0
    };
    let m2 = if find.include_neighborhood {
        m1.insert("inclnb"@, "1"@)
    } else {
        m1
    };
    if find.include_ciso2 {
        m2.insert("incl"@, "ciso2"@)
    } else {
        m2
    }
}

/// `m` with the context hints that are given, but for the culture.
pub open spec fn with_context(
    m: Map<Seq<char>, Seq<char>>,
    opts: Option<ContextParams>,
) -> Map<Seq<char>, Seq<char>> {
    match opts {
        None => m,
        Some(ctx) => {
            let m1 = match ctx.user_map_view {
                Some(v) => m.insert("umv"@, join(texts(v@))),
                None => m,
            };
            let m2 = match ctx.user_location {
                Some(v) => m1.insert("ul"@, join(texts(v@))),
                None => m1,
            };
            let m3 = match ctx.user_ip {
                Some(v) => m2.insert("uip"@, v@),
                None => m2,
            };
            match ctx.user_region {
                Some(v) => m3.insert("ur"@, v@),
                None => m3,
            }
        },
    }
}

/// Whether a culture is asked for.
pub open spec fn culture_given(opts: Option<ContextParams>) -> bool {
    opts matches Some(ctx) && ctx.culture is Some
}

/// Adds the context hints to `params`. A culture is written with serde_qs as
/// a nested value, which serde_qs refuses, so a culture fails the lookup
/// with a conversion error.
fn add_context(params: &mut Params, opts: &Option<ContextParams>) -> (r: Result<(), Error>)
    requires
        old(params).wf(),
    ensures
        final(params).wf(),
        r is Err <==> culture_given(*opts),
        r is Err ==> r->Err_0 is Conversion,
        r is Ok ==> final(params)@ == with_context(old(params)@, *opts),
{
    if let Some(ctx) = opts {
        if let Some(c) = &ctx.culture {
            match qs_value_to_string(c) {
                Ok(culture) => {
                    params.insert("c", culture.as_str());
                },
                Err(msg) => {
                    return Err(Error::Conversion(msg));
                },
            }
        }
        if let Some(umv) = &ctx.user_map_view {
            let user_map_view = join_texts(umv);
            params.insert("umv", user_map_view.as_str());
        }
        if let Some(ul) = &ctx.user_location {
            let user_location = join_texts(ul);
            params.insert("ul", user_location.as_str());
        }
        if let Some(uip) = &ctx.user_ip {
            params.insert("uip", uip.as_str());
        }
        if let Some(ur) = &ctx.user_region {
            params.insert("ur", ur.as_str());
        }
    }
    Ok(())
}

/// The query parameters of a point-to-address lookup, before the credential
/// is added: one for each flag or hint that is set, and no others.
pub fn point_params(find: &FindPoint, opts: &Option<ContextParams>) -> (r: Result<Params, Error>)
    ensures
        r is Err <==> culture_given(*opts),
        r is Err ==> r->Err_0 is Conversion,
        r is Ok ==> r->Ok_0.wf() && r->Ok_0@ == with_context(point_flags(*find), *opts),
{
    let mut params = Params::new();
    if find.include_entity_types.len() > 0 {
        let entity_types = join_names(&find.include_entity_types);
        params.insert("include_entity_types", entity_types.as_str());
    }
    if find.include_neighborhood {
        params.insert("inclnb", "1");
    }
    if find.include_ciso2 {
        params.insert("incl", "ciso2");
    }
    add_context(&mut params, opts)?;
    Ok(params)
}

/// The query parameters of an address-to-point lookup, before the
/// credential is added: the query and each hint that is set.
pub fn query_params(query: &str, opts: &Option<ContextParams>) -> (r: Result<Params, Error>)
    ensures
        r is Err <==> culture_given(*opts),
        r is Err ==> r->Err_0 is Conversion,
        r is Ok ==> r->Ok_0.wf() && r->Ok_0@ == with_context(
            Map::<Seq<char>, Seq<char>>::empty().insert("q"@, query@),
            *opts,
        ),
{
    let mut params = Params::new();
    params.insert("q", query);
    add_context(&mut params, opts)?;
    Ok(params)
}

/// The address of a point-to-address lookup made by `client`, with the
/// credential among its parameters.
pub fn point_request(client: &Client, find: &FindPoint, opts: &Option<ContextParams>) -> (r:
    Result<String, Error>)
    ensures
        r is Err <==> culture_given(*opts),
        r is Err ==> r->Err_0 is Conversion,
        r is Ok ==> r->Ok_0@ == url_text(
            "/Locations/"@ + find.point@,
            qs_encoding(
                with_context(point_flags(*find), *opts).insert(key_param(), client.credential()),
            ),
        ),
{
    let path = find.path();
    let mut params = point_params(find, opts)?;
    Ok(client.request_url(path.as_str(), &mut params))
}

/// The address of an address-to-point lookup of `query` made by `client`,
/// with the credential among its parameters.
pub fn query_request(client: &Client, query: &str, opts: &Option<ContextParams>) -> (r: Result<
    String,
    Error,
>)
    ensures
        r is Err <==> culture_given(*opts),
        r is Err ==> r->Err_0 is Conversion,
        r is Ok ==> r->Ok_0@ == url_text(
            "/Locations"@,
            qs_encoding(
                with_context(
                    Map::<Seq<char>, Seq<char>>::empty().insert("q"@, query@),
                    *opts,
                ).insert(key_param(), client.credential()),
            ),
        ),
{
    let mut params = query_params(query, opts)?;
    Ok(client.request_url("/Locations", &mut params))
}

/// `m` holds `k` exactly when `v` is given, and then with that value.
pub open spec fn param_is(m: Map<Seq<char>, Seq<char>>, k: Seq<char>, v: Option<Seq<char>>) -> bool {
    match v {
        Some(x) => m.contains_key(k) && m[k] == x,
        None => !m.contains_key(k),
    }
}

pub open spec fn hint_list(v: Option<Vec<String>>) -> Option<Seq<char>> {
    match v {
        Some(l) => Some(join(texts(l@))),
        None => None,
    }
}

pub open spec fn hint_text(v: Option<String>) -> Option<Seq<char>> {
    match v {
        Some(t) => Some(t@),
        None => None,
    }
}

/// The keys of the context hints.
pub open spec fn context_keys() -> Set<Seq<char>> {
    set!["umv"@, "ul"@, "uip"@, "ur"@]
}

pub open spec fn context_params_are(m: Map<Seq<char>, Seq<char>>, opts: Option<ContextParams>) -> bool {
    match opts {
        None => forall|k: Seq<char>| context_keys().contains(k) ==> !#[trigger] m.contains_key(k),
        Some(ctx) => {
            &&& param_is(m, "umv"@, hint_list(ctx.user_map_view))
            &&& param_is(m, "ul"@, hint_list(ctx.user_location))
            &&& param_is(m, "uip"@, hint_text(ctx.user_ip))
            &&& param_is(m, "ur"@, hint_text(ctx.user_region))
        },
    }
}

proof fn lemma_context_keys(m: Map<Seq<char>, Seq<char>>, opts: Option<ContextParams>)
    requires
        forall|k: Seq<char>| context_keys().contains(k) ==> !#[trigger] m.contains_key(k),
    ensures
        context_params_are(with_context(m, opts), opts),
        forall|k: Seq<char>|
            !context_keys().contains(k) ==> (#[trigger] with_context(m, opts).contains_key(k)
                <==> m.contains_key(k)) && (m.contains_key(k) ==> with_context(m, opts)[k]
                == m[k]),
{
    reveal_strlit("umv");
    reveal_strlit("ul");
    reveal_strlit("uip");
    reveal_strlit("ur");
    assert("umv"@[1] != "uip"@[1]);
    assert("ul"@ != "ur"@) by {
        assert("ul"@[1] != "ur"@[1]);
    }
    assert(context_keys().contains("umv"@));
    assert(context_keys().contains("ul"@));
    assert(context_keys().contains("uip"@));
    assert(context_keys().contains("ur"@));
}

/// In the parameters of a point-to-address lookup a flag or hint that is not
/// set has no key, one that is set has its key, once, with its values joined
/// by commas, and there is no other key.
pub proof fn lemma_point_params_keys(find: FindPoint, opts: Option<ContextParams>)
    requires
        !culture_given(opts),
    ensures
        param_is(
            with_context(point_flags(find), opts),
            "include_entity_types"@,
            if find.include_entity_types@.len() > 0 {
                Some(join(entity_names(find.include_entity_types@)))
            } else {
                None
            },
        ),
        param_is(
            with_context(point_flags(find), opts),
            "inclnb"@,
            if find.include_neighborhood {
                Some("1"@)
            } else {
                None
            },
        ),
        param_is(
            with_context(point_flags(find), opts),
            "incl"@,
            if find.include_ciso2 {
                Some("ciso2"@)
            } else {
                None
            },
        ),
        context_params_are(with_context(point_flags(find), opts), opts),
        forall|k: Seq<char>| #[trigger]
            with_context(point_flags(find), opts).contains_key(k) ==> k == "include_entity_types"@
                || k == "inclnb"@ || k == "incl"@ || context_keys().contains(k),
{
    reveal_strlit("include_entity_types");
    reveal_strlit("inclnb");
    reveal_strlit("incl");
    reveal_strlit("umv");
    reveal_strlit("ul");
    reveal_strlit("uip");
    reveal_strlit("ur");
    let m = point_flags(find);
    assert("inclnb"@.len() != "incl"@.len());
    assert("include_entity_types"@.len() != "incl"@.len());
    assert("include_entity_types"@.len() != "inclnb"@.len());
    assert("incl"@ != "ul"@) by {
        assert("incl"@[0] != "ul"@[0]);
    }
    assert forall|k: Seq<char>| context_keys().contains(k) implies !#[trigger] m.contains_key(k) by {
        assert(k != "inclnb"@ && k != "incl"@ && k != "include_entity_types"@) by {
            assert(k[0] == 'u');
        }
    }
    lemma_context_keys(m, opts);
    assert(!context_keys().contains("include_entity_types"@)) by {
        assert("include_entity_types"@[0] != 'u');
    }
    assert(!context_keys().contains("inclnb"@)) by {
        assert("inclnb"@[0] != 'u');
    }
    assert(!context_keys().contains("incl"@)) by {
        assert("incl"@[0] != 'u');
    }
    let w = with_context(m, opts);
    assert(w.contains_key("include_entity_types"@) == m.contains_key("include_entity_types"@));
    assert(w.contains_key("inclnb"@) == m.contains_key("inclnb"@));
    assert(w.contains_key("incl"@) == m.contains_key("incl"@));
}

/// In the parameters of an address-to-point lookup the query is always
/// there, a hint that is not set has no key, one that is set has its key,
/// once, with its values joined by commas, and there is no other key.
pub proof fn lemma_query_params_keys(query: Seq<char>, opts: Option<ContextParams>)
    requires
        !culture_given(opts),
    ensures
        param_is(
            with_context(Map::<Seq<char>, Seq<char>>::empty().insert("q"@, query), opts),
            "q"@,
            Some(query),
        ),
        context_params_are(
            with_context(Map::<Seq<char>, Seq<char>>::empty().insert("q"@, query), opts),
            opts,
        ),
        forall|k: Seq<char>| #[trigger]
            with_context(Map::<Seq<char>, Seq<char>>::empty().insert("q"@, query), opts).contains_key(
                k,
            ) ==> k == "q"@ || context_keys().contains(k),
{
    reveal_strlit("q");
    reveal_strlit("umv");
    reveal_strlit("ul");
    reveal_strlit("uip");
    reveal_strlit("ur");
    let m = Map::<Seq<char>, Seq<char>>::empty().insert("q"@, query);
    assert forall|k: Seq<char>| context_keys().contains(k) implies !#[trigger] m.contains_key(k) by {
        assert(k != "q"@) by {
            assert(k[0] == 'u');
        }
    }
    lemma_context_keys(m, opts);
    assert(!context_keys().contains("q"@)) by {
        assert("q"@[0] != 'u');
    }
    assert(with_context(m, opts).contains_key("q"@));
}

} // verus!
