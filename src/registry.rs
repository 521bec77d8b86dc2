use vstd::prelude::*;

use vstd::string::StrSliceExecFns;

use crate::error::ContractError;

verus! {

/// Longest endpoint accepted, in characters.
pub const MAX_ENDPOINT_LEN: usize = 512;

/// Longest tool id accepted, in characters.
pub const MAX_TOOL_ID_LEN: usize = 16;

/// Longest description accepted, in characters.
pub const MAX_DESCRIPTION_LEN: usize = 256;

/// Denomination of a tool registered without one.
pub const DEFAULT_DENOM: &'static str = "untrn";

pub open spec fn default_denom() -> Seq<char> {
    seq!['u', 'n', 't', 'r', 'n']
}

pub open spec fn https_prefix() -> Seq<char> {
    seq!['h', 't', 't', 'p', 's', ':', '/', '/']
}

pub open spec fn has_https_prefix(s: Seq<char>) -> bool {
    s.len() >= 8 && s.subrange(0, 8) == https_prefix()
}

/// The outcome of endpoint validation: too long first, then the scheme.
pub open spec fn endpoint_check(s: Seq<char>) -> Result<(), ContractError> {
    if s.len() > MAX_ENDPOINT_LEN {
        Err(ContractError::EndpointTooLong)
    } else if !has_https_prefix(s) {
        Err(ContractError::InvalidEndpointFormat)
    } else {
        Ok(())
    }
}

/// A registered tool.
pub struct ToolMeta {
    pub provider: String,
    pub price: u128,
    pub denom: String,
    pub is_active: bool,
    pub description: String,
    pub endpoint: String,
}

/// A tool as the queries report it.
pub struct ToolResponse {
    pub tool_id: String,
    pub provider: String,
    pub price: u128,
    pub denom: String,
    pub is_active: bool,
    pub description: String,
    pub endpoint: String,
}

/// The operations on the directory.
#[allow(inconsistent_fields)]
pub enum ExecuteMsg {
    RegisterTool {
        tool_id: String,
        price: u128,
        denom: Option<String>,
        description: String,
        endpoint: String,
    },
    UpdatePrice { tool_id: String, price: u128 },
    PauseTool { tool_id: String },
    ResumeTool { tool_id: String },
    UpdateDenom { tool_id: String, denom: String },
    UpdateEndpoint { tool_id: String, endpoint: String },
}

impl ExecuteMsg {
    pub open spec fn spec_tool_id(&self) -> String {
        match self {
            ExecuteMsg::RegisterTool { tool_id, .. } => *tool_id,
            ExecuteMsg::UpdatePrice { tool_id, .. } => *tool_id,
            ExecuteMsg::PauseTool { tool_id } => *tool_id,
            ExecuteMsg::ResumeTool { tool_id } => *tool_id,
            ExecuteMsg::UpdateDenom { tool_id, .. } => *tool_id,
            ExecuteMsg::UpdateEndpoint { tool_id, .. } => *tool_id,
        }
    }

    /// The id of the tool that the operation is about.
    pub fn tool_id(&self) -> (r: &String)
        ensures
            *r == self.spec_tool_id(),
    {
        match self {
            ExecuteMsg::RegisterTool { tool_id, .. } => tool_id,
            ExecuteMsg::UpdatePrice { tool_id, .. } => tool_id,
            ExecuteMsg::PauseTool { tool_id } => tool_id,
            ExecuteMsg::ResumeTool { tool_id } => tool_id,
            ExecuteMsg::UpdateDenom { tool_id, .. } => tool_id,
            ExecuteMsg::UpdateEndpoint { tool_id, .. } => tool_id,
        }
    }
}

/// The stored tool, if `sender` owns it: `ToolNotFound` when there is none,
/// `Unauthorized` when another account registered it.
pub open spec fn owned(tool: Option<ToolMeta>, sender: Seq<char>) -> Result<ToolMeta, ContractError> {
    match tool {
        None => Err(ContractError::ToolNotFound),
        Some(t) => if sender != t.provider@ {
            Err(ContractError::Unauthorized)
        } else {
            Ok(t)
        },
    }
}

fn check_owner(tool: Option<ToolMeta>, sender: &String) -> (r: Result<ToolMeta, ContractError>)
    ensures
        r == owned(tool, sender@),
{
    match tool {
        None => Err(ContractError::ToolNotFound),
        Some(t) => {
            if !sender.eq(&t.provider) {
                Err(ContractError::Unauthorized)
            } else {
                Ok(t)
            }
        },
    }
}

/// Checks that an endpoint is at most 512 characters long and starts with
/// `https://`.
pub fn validate_endpoint(endpoint: &str) -> (r: Result<(), ContractError>)
    ensures
        r == endpoint_check(endpoint@),
{
    let n = endpoint.unicode_len();
    if n > MAX_ENDPOINT_LEN {
        return Err(ContractError::EndpointTooLong);
    }
    if n < 8 {
        return Err(ContractError::InvalidEndpointFormat);
    }
    let prefix: [char; 8] = ['h', 't', 't', 'p', 's', ':', '/', '/'];
    assert(prefix@ == https_prefix());
    let mut i: usize = 0;
    while i < 8
        invariant
            i <= 8,
            n == endpoint@.len(),
            8 <= n <= MAX_ENDPOINT_LEN,
            prefix@ == https_prefix(),
            forall|j: int| 0 <= j < i ==> endpoint@[j] == prefix@[j],
        decreases 8 - i,
    {
        if endpoint.get_char(i) != prefix[i] {
            assert(endpoint@.subrange(0, 8)[i as int] != https_prefix()[i as int]);
            return Err(ContractError::InvalidEndpointFormat);
        }
        i = i + 1;
    }
    assert(endpoint@.subrange(0, 8) =~= https_prefix());
    Ok(())
}

/// The checks of a registration, in order.
pub open spec fn register_check(
    tool_id: Seq<char>,
    description: Seq<char>,
    endpoint: Seq<char>,
) -> Result<(), ContractError> {
    if tool_id.len() > MAX_TOOL_ID_LEN {
        Err(ContractError::ToolIdTooLong)
    } else if description.len() > MAX_DESCRIPTION_LEN {
        Err(ContractError::DescriptionTooLong)
    } else {
        endpoint_check(endpoint)
    }
}

/// Validates a new tool and returns the metadata to store under `tool_id`:
/// owned by `sender`, active, in `denom` or else in `untrn`.
pub fn execute_register_tool(
    sender: String,
    tool_id: String,
    price: u128,
    denom: Option<String>,
    description: String,
    endpoint: String,
) -> (r: Result<ToolMeta, ContractError>)
    ensures
        registered(r, sender, tool_id, price, denom, description, endpoint),
{
    if tool_id.as_str().unicode_len() > MAX_TOOL_ID_LEN {
        return Err(ContractError::ToolIdTooLong);
    }
    if description.as_str().unicode_len() > MAX_DESCRIPTION_LEN {
        return Err(ContractError::DescriptionTooLong);
    }
    match validate_endpoint(endpoint.as_str()) {
        Err(e) => {
            return Err(e);
        },
        Ok(()) => {},
    }
    let denom = match denom {
        Some(d) => d,
        None => {
            proof {
                reveal_strlit("untrn");
            }
            let d = DEFAULT_DENOM.to_owned();
            assert(d@ =~= default_denom());
            d
        },
    };
    Ok(ToolMeta { provider: sender, price, denom, is_active: true, description, endpoint })
}

/// What a registration returns: the metadata that `execute_register_tool`
/// builds when the checks pass, the first failed check otherwise.
pub open spec fn registered(
    r: Result<ToolMeta, ContractError>,
    sender: String,
    tool_id: String,
    price: u128,
    denom: Option<String>,
    description: String,
    endpoint: String,
) -> bool {
    match r {
        Ok(m) => {
            &&& register_check(tool_id@, description@, endpoint@) == Ok::<(), ContractError>(())
            &&& m.provider == sender
            &&& m.price == price
            &&& m.denom@ == (match denom {
                Some(d) => d@,
                None => default_denom(),
            })
            &&& m.is_active
            &&& m.description == description
            &&& m.endpoint == endpoint
        },
        Err(e) => register_check(tool_id@, description@, endpoint@) == Err::<(), ContractError>(e),
    }
}

pub open spec fn price_updated(tool: Option<ToolMeta>, sender: Seq<char>, price: u128) -> Result<
    ToolMeta,
    ContractError,
> {
    match owned(tool, sender) {
        Ok(t) => Ok(ToolMeta { price, ..t }),
        Err(e) => Err(e),
    }
}

pub open spec fn activity_set(tool: Option<ToolMeta>, sender: Seq<char>, active: bool) -> Result<
    ToolMeta,
    ContractError,
> {
    match owned(tool, sender) {
        Ok(t) => Ok(ToolMeta { is_active: active, ..t }),
        Err(e) => Err(e),
    }
}

pub open spec fn denom_updated(tool: Option<ToolMeta>, sender: Seq<char>, denom: String) -> Result<
    ToolMeta,
    ContractError,
> {
    match owned(tool, sender) {
        Ok(t) => Ok(ToolMeta { denom, ..t }),
        Err(e) => Err(e),
    }
}

pub open spec fn endpoint_updated(
    tool: Option<ToolMeta>,
    sender: Seq<char>,
    endpoint: String,
) -> Result<ToolMeta, ContractError> {
    match endpoint_check(endpoint@) {
        Err(e) => Err(e),
        Ok(()) => match owned(tool, sender) {
            Ok(t) => Ok(ToolMeta { endpoint, ..t }),
            Err(e) => Err(e),
        },
    }
}

/// Sets the price of the stored tool `tool`, which `sender` must own.
pub fn execute_update_price(tool: Option<ToolMeta>, sender: &String, price: u128) -> (r: Result<
    ToolMeta,
    ContractError,
>)
    ensures
        r == price_updated(tool, sender@, price),
{
    let mut t = check_owner(tool, sender)?;
    t.price = price;
    Ok(t)
}

/// Marks the stored tool `tool` inactive; `sender` must own it.
pub fn execute_pause_tool(tool: Option<ToolMeta>, sender: &String) -> (r: Result<
    ToolMeta,
    ContractError,
>)
    ensures
        r == activity_set(tool, sender@, false),
{
    let mut t = check_owner(tool, sender)?;
    t.is_active = false;
    Ok(t)
}

/// Marks the stored tool `tool` active again; `sender` must own it.
pub fn execute_resume_tool(tool: Option<ToolMeta>, sender: &String) -> (r: Result<
    ToolMeta,
    ContractError,
>)
    ensures
        r == activity_set(tool, sender@, true),
{
    let mut t = check_owner(tool, sender)?;
    t.is_active = true;
    Ok(t)
}

/// Sets the denomination of the stored tool `tool`; `sender` must own it.
pub fn execute_update_denom(tool: Option<ToolMeta>, sender: &String, denom: String) -> (r: Result<
    ToolMeta,
    ContractError,
>)
    ensures
        r == denom_updated(tool, sender@, denom),
{
    let mut t = check_owner(tool, sender)?;
    t.denom = denom;
    Ok(t)
}

/// Sets the endpoint of the stored tool `tool`. The endpoint is validated
/// before ownership; `sender` must own the tool.
pub fn execute_update_endpoint(tool: Option<ToolMeta>, sender: &String, endpoint: String) -> (r:
    Result<ToolMeta, ContractError>)
    ensures
        r == endpoint_updated(tool, sender@, endpoint),
{
    validate_endpoint(endpoint.as_str())?;
    let mut t = check_owner(tool, sender)?;
    t.endpoint = endpoint;
    Ok(t)
}

/// Runs one directory operation. `stored` is what the directory holds under
/// the message's tool id; the result is the metadata to store there.
pub fn execute(stored: Option<ToolMeta>, sender: String, msg: ExecuteMsg) -> (r: Result<
    ToolMeta,
    ContractError,
>)
    ensures
        match msg {
            ExecuteMsg::RegisterTool { tool_id, price, denom, description, endpoint } => registered(
                r,
                sender,
                tool_id,
                price,
                denom,
                description,
                endpoint,
            ),
            ExecuteMsg::UpdatePrice { price, .. } => r == price_updated(stored, sender@, price),
            ExecuteMsg::PauseTool { .. } => r == activity_set(stored, sender@, false),
            ExecuteMsg::ResumeTool { .. } => r == activity_set(stored, sender@, true),
            ExecuteMsg::UpdateDenom { denom, .. } => r == denom_updated(stored, sender@, denom),
            ExecuteMsg::UpdateEndpoint { endpoint, .. } => r == endpoint_updated(
                stored,
                sender@,
                endpoint,
            ),
        },
{
    match msg {
        ExecuteMsg::RegisterTool { tool_id, price, denom, description, endpoint } => {
            execute_register_tool(sender, tool_id, price, denom, description, endpoint)
        },
        ExecuteMsg::UpdatePrice { price, .. } => execute_update_price(stored, &sender, price),
        ExecuteMsg::PauseTool { .. } => execute_pause_tool(stored, &sender),
        ExecuteMsg::ResumeTool { .. } => execute_resume_tool(stored, &sender),
        ExecuteMsg::UpdateDenom { denom, .. } => execute_update_denom(stored, &sender, denom),
        ExecuteMsg::UpdateEndpoint { endpoint, .. } => execute_update_endpoint(
            stored,
            &sender,
            endpoint,
        ),
    }
}

/// The report of tool `tool_id` with metadata `t`.
pub open spec fn response_of(tool_id: String, t: ToolMeta) -> ToolResponse {
    ToolResponse {
        tool_id,
        provider: t.provider,
        price: t.price,
        denom: t.denom,
        is_active: t.is_active,
        description: t.description,
        endpoint: t.endpoint,
    }
}

fn respond(tool_id: &String, t: &ToolMeta) -> (r: ToolResponse)
    ensures
        r == response_of(*tool_id, *t),
{
    ToolResponse {
        tool_id: tool_id.clone(),
        provider: t.provider.clone(),
        price: t.price,
        denom: t.denom.clone(),
        is_active: t.is_active,
        description: t.description.clone(),
        endpoint: t.endpoint.clone(),
    }
}

/// The report of tool `tool_id`, given what the directory holds under it.
pub fn query_tool(tool_id: String, stored: Option<ToolMeta>) -> (r: Option<ToolResponse>)
    ensures
        r == (match stored {
            Some(t) => Some(response_of(tool_id, t)),
            None => None::<ToolResponse>,
        }),
{
    match stored {
        Some(t) => Some(respond(&tool_id, &t)),
        None => None,
    }
}

/// The reports of all tools, given the directory's entries in the order to
/// report them.
pub fn query_all_tools(entries: &Vec<(String, ToolMeta)>) -> (r: Vec<ToolResponse>)
    ensures
        r@.len() == entries@.len(),
        forall|i: int|
            0 <= i < entries@.len() ==> #[trigger] r@[i] == response_of(
                entries@[i].0,
                entries@[i].1,
            ),
{
    let mut out: Vec<ToolResponse> = Vec::new();
    let mut i: usize = 0;
    while i < entries.len()
        invariant
            i <= entries@.len(),
            out@.len() == i,
            forall|j: int|
                0 <= j < i ==> #[trigger] out@[j] == response_of(entries@[j].0, entries@[j].1),
        decreases entries@.len() - i,
    {
        let (tool_id, t) = &entries[i];
        out.push(respond(tool_id, t));
        i = i + 1;
    }
    out
}

} // verus!
