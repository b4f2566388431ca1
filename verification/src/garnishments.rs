//! The Gusto endpoints for the garnishments of an employee.

use vstd::prelude::*;
use vstd::string::*;
use crate::client::{Client, Method, Paging, Request};
use crate::encode::{encode_path, path_encoded};

verus! {

/// The garnishment operations of one client.
pub struct Garnishments {
    client: Client,
}

/// `/v1/employees/{employee_id}/garnishments`.
pub open spec fn employee_garnishments_path(employee_id: Seq<char>) -> Seq<char> {
    "/v1/employees/"@ + path_encoded(employee_id) + "/garnishments"@
}

/// `/v1/garnishments/{garnishment_id}`.
pub open spec fn garnishment_path(garnishment_id: Seq<char>) -> Seq<char> {
    "/v1/garnishments/"@ + path_encoded(garnishment_id)
}

fn employee_garnishments_url(employee_id: &str) -> (url: String)
    ensures
        url@ == employee_garnishments_path(employee_id@),
{
    "/v1/employees/".to_owned().concat(encode_path(employee_id).as_str()).concat("/garnishments")
}

fn garnishment_url(garnishment_id: &str) -> (url: String)
    ensures
        url@ == garnishment_path(garnishment_id@),
{
    "/v1/garnishments/".to_owned().concat(encode_path(garnishment_id).as_str())
}

impl Garnishments {
    /// The client whose base URL and credential every request carries.
    pub closed spec fn client(&self) -> Client {
        self.client
    }

    pub fn new(client: Client) -> (api: Self)
        ensures
            api.client() == client,
    {
        Garnishments { client }
    }

    /// `GET /v1/employees/{employee_id}/garnishments`: the first page of the
    /// garnishments of an employee.
    pub fn get_employees_employee_id_garnishments(&self, employee_id: &str) -> (req: Request)
        ensures
            req@ == self.client().planned(
                Method::Get,
                employee_garnishments_path(employee_id@),
                None,
                Paging::Single,
            ),
    {
        let url = employee_garnishments_url(employee_id);
        self.client.get(url.as_str(), None)
    }

    /// `GET /v1/employees/{employee_id}/garnishments`, for every page of the
    /// listing.
    pub fn get_all_employees_employee_id_garnishments(&self, employee_id: &str) -> (req: Request)
        ensures
            req@ == self.client().planned(
                Method::Get,
                employee_garnishments_path(employee_id@),
                None,
                Paging::All,
            ),
    {
        let url = employee_garnishments_url(employee_id);
        self.client.get_all_pages(url.as_str(), None)
    }

    /// `POST /v1/employees/{employee_id}/garnishments`: creates the
    /// garnishment that `body` holds in serialized form.
    pub fn post_employees_employee_id_garnishments(&self, employee_id: &str, body: Vec<u8>) -> (req:
        Request)
        ensures
            req@ == self.client().planned(
                Method::Post,
                employee_garnishments_path(employee_id@),
                Some(body@),
                Paging::Single,
            ),
    {
        let url = employee_garnishments_url(employee_id);
        self.client.post(url.as_str(), Some(body))
    }

    /// `GET /v1/garnishments/{garnishment_id}`: one garnishment.
    pub fn get_garnishments_garnishment_id(&self, garnishment_id: &str) -> (req: Request)
        ensures
            req@ == self.client().planned(
                Method::Get,
                garnishment_path(garnishment_id@),
                None,
                Paging::Single,
            ),
    {
        let url = garnishment_url(garnishment_id);
        self.client.get(url.as_str(), None)
    }

    /// `PUT /v1/garnishments/{garnishment_id}`: replaces the garnishment by
    /// the one that `body` holds in serialized form.
    pub fn put_garnishments_garnishment_id(&self, garnishment_id: &str, body: Vec<u8>) -> (req:
        Request)
        ensures
            req@ == self.client().planned(
                Method::Put,
                garnishment_path(garnishment_id@),
                Some(body@),
                Paging::Single,
            ),
    {
        let url = garnishment_url(garnishment_id);
        self.client.put(url.as_str(), Some(body))
    }
}

} // verus!
