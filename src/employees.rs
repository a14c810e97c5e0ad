use vstd::prelude::*;
use crate::client::Client;

verus! {

/// The endpoints of one resource group, bound to the client they go through.
pub struct Employees {
    client: Client,
}

impl Employees {
    pub closed spec fn client_view(&self) -> Client {
        self.client
    }

    pub fn new(client: Client) -> (r: Self)
        ensures
            r.client_view() == client,
    {
        Employees { client }
    }

    pub fn client(&self) -> (r: &Client)
        ensures
            *r == self.client_view(),
    {
        &self.client
    }

    /// The path of one employee; ids are path segments as they are to be
    /// sent, already percent-encoded.
    pub open spec fn employee_path(employee_id: Seq<char>) -> Seq<char> {
        "/v1/employees/"@ + employee_id
    }

    /// The path of a company's employees.
    pub open spec fn company_employees_path(company_id: Seq<char>) -> Seq<char> {
        "/v1/companies/"@ + company_id + "/employees"@
    }

    /// The URL path that gets or puts an employee.
    pub fn employee_url(employee_id: &str) -> (r: String)
        ensures
            r@ == Self::employee_path(employee_id@),
    {
        proof {
            reveal_strlit("/v1/employees/");
        }
        let mut url = String::from_str("/v1/employees/");
        url.append(employee_id);
        url
    }

    /// The URL path that lists or creates a company's employees.
    pub fn company_employees_url(company_id: &str) -> (r: String)
        ensures
            r@ == Self::company_employees_path(company_id@),
    {
        proof {
            reveal_strlit("/v1/companies/");
            reveal_strlit("/employees");
        }
        let mut url = String::from_str("/v1/companies/");
        url.append(company_id);
        url.append("/employees");
        url
    }

    /// The URL path of an employee's home address.
    pub fn home_address_url(employee_id: &str) -> (r: String)
        ensures
            r@ == Self::employee_path(employee_id@) + "/home_address"@,
    {
        let mut url = Self::employee_url(employee_id);
        url.append("/home_address");
        url
    }
}

} // verus!
