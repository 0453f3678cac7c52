use jamfrs::args::{
    ComputerCommand, ComputerSubcommand, EntityType, Id, PatchCommand, PatchReportCommand,
    PatchSubcommand,
};
use jamfrs::endpoints::{ApiEndpoints, HttpMethod};
use jamfrs::service::UrlBuilder;

fn computer(sub: ComputerSubcommand) -> EntityType {
    EntityType::Computer(ComputerCommand { subcommand: sub })
}

#[test]
fn test_usage_token_auth() {
    let details = ApiEndpoints::TokenAuth.usage();
    assert_eq!(details.method, HttpMethod::Post);
    assert_eq!(details.url, "/api/auth/tokens");
}

#[test]
fn test_usage_computer_endpoints() {
    let details = ApiEndpoints::ComputerDelete.usage();
    assert_eq!(details.method, HttpMethod::Delete);
    assert_eq!(details.url, "/JSSResource/computers/id/{id}");

    let details = ApiEndpoints::ComputerList.usage();
    assert_eq!(details.method, HttpMethod::Get);
    assert_eq!(details.url, "/JSSResource/computers");
}

#[test]
fn test_none_descriptor_single_url() {
    // A descriptor without arguments materializes exactly one URL: the
    // address followed by the unmodified template; later calls yield nothing.
    let details = ApiEndpoints::get_api_details(&computer(ComputerSubcommand::List)).unwrap();
    let mut builder = UrlBuilder::new(String::from("https://host:8443"), details);
    assert_eq!(builder.number_of_commands(), 1);
    assert_eq!(builder.next().unwrap(), "https://host:8443/JSSResource/computers");
    assert!(builder.next().is_none());
    assert!(builder.next().is_none());
}

#[test]
fn test_id_list_descriptor_urls() {
    // An identifier-list descriptor materializes one URL per identifier, in
    // order, substituting the identifier placeholder; the call after the
    // last identifier yields nothing.
    let details = ApiEndpoints::get_api_details(&computer(ComputerSubcommand::Show(Id {
        id: vec![10, 11, 12],
        range: vec![],
    })))
    .unwrap();
    let mut builder = UrlBuilder::new(String::from("https://host:8443"), details);
    assert_eq!(builder.number_of_commands(), 3);
    assert_eq!(builder.next().unwrap(), "https://host:8443/JSSResource/computers/id/10");
    assert_eq!(builder.next().unwrap(), "https://host:8443/JSSResource/computers/id/11");
    assert_eq!(builder.next().unwrap(), "https://host:8443/JSSResource/computers/id/12");
    assert!(builder.next().is_none());
}

#[test]
fn test_search_descriptor_url() {
    let details = ApiEndpoints::get_api_details(&computer(ComputerSubcommand::Search {
        search_query: String::from("mac*"),
    }))
    .unwrap();
    assert_eq!(details.endpoint.method, HttpMethod::Get);
    let mut builder = UrlBuilder::new(String::from("https://host:8443"), details);
    assert_eq!(builder.number_of_commands(), 1);
    assert_eq!(builder.next().unwrap(), "https://host:8443/JSSResource/computers/match/mac*");
    assert!(builder.next().is_none());
}

#[test]
fn test_named_substitutions_url() {
    // A descriptor with several named placeholders fills in every one.
    let details = ApiEndpoints::get_api_details(&EntityType::Patch(PatchCommand {
        patch_command: PatchSubcommand::Report(PatchReportCommand::ListComputer {
            id: String::from("7"),
            software_version: String::from("1.2.3"),
        }),
    }))
    .unwrap();
    let mut builder = UrlBuilder::new(String::from("https://host:8443"), details);
    assert_eq!(builder.number_of_commands(), 1);
    assert_eq!(
        builder.next().unwrap(),
        "https://host:8443/JSSResource/patchreports/patchsoftwaretitleid/7/version/1.2.3"
    );
    assert!(builder.next().is_none());
}

#[test]
fn test_descriptor_error_on_unusable_ids() {
    // An empty explicit list with no usable range is rejected before any
    // network activity.
    let details = ApiEndpoints::get_api_details(&computer(ComputerSubcommand::Show(Id {
        id: vec![],
        range: vec![5],
    })));
    assert!(details.is_err());
}

#[test]
fn test_delete_descriptor_method() {
    // The caller-facing confirmation gate keys off the resolved verb.
    let details = ApiEndpoints::get_api_details(&computer(ComputerSubcommand::Delete(Id {
        id: vec![4],
        range: vec![],
    })))
    .unwrap();
    assert_eq!(details.endpoint.method, HttpMethod::Delete);
}
