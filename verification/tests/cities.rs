use city_service::city::{same_text, City, CityDraft, CountryPopulation};
use city_service::http::{
    begin_post_city, finish_post_city, get_city, lookup_response, ratio_response,
    registration_response, Body, Response, Status, Step,
};
use city_service::lookup::{lookup, lookup_command, name_from_arguments};
use city_service::ratio::{compute_ratio, population_command, Ratio, RatioError};
use city_service::registration::{insert_command, register, RegistrationError, ValidationError};
use city_service::store::{CityColumn, Parameter, StoreCommand, StoreError};

fn testville() -> CityDraft {
    CityDraft {
        name: "Testville".to_string(),
        country_code: "TST".to_string(),
        district: "TestDistrict".to_string(),
        population: 1000,
    }
}

fn city(id: i32, name: &str, population: i32) -> City {
    City {
        id,
        name: name.to_string(),
        country_code: "TST".to_string(),
        district: "TestDistrict".to_string(),
        population,
    }
}

fn country(population: i32) -> CountryPopulation {
    CountryPopulation { code: "TST".to_string(), population }
}

fn percent(ratio: Ratio) -> f64 {
    ratio.city_population as f64 / ratio.country_population as f64 * 100.0
}

#[test]
fn register_then_lookup_returns_the_same_fields_with_an_identifier() {
    let draft = testville();
    let command = insert_command(&draft).unwrap();
    assert_eq!(command, StoreCommand::InsertCity { draft: draft.clone() });
    let created = register(draft.clone(), Ok(4080)).unwrap();
    assert_eq!(created, city(4080, "Testville", 1000));
    assert_ne!(created.id, 0);

    assert_eq!(
        lookup_command("Testville"),
        StoreCommand::FindCityByName { name: "Testville".to_string() }
    );
    let found = lookup("Testville", Ok(Some(created.clone()))).unwrap().unwrap();
    assert_eq!(found.name, draft.name);
    assert_eq!(found.country_code, draft.country_code);
    assert_eq!(found.district, draft.district);
    assert_eq!(found.population, draft.population);
    assert_eq!(found.id, 4080);
}

#[test]
fn registered_city_keeps_every_field_for_several_drafts() {
    let drafts = vec![
        testville(),
        CityDraft {
            name: "A".to_string(),
            country_code: String::new(),
            district: String::new(),
            population: 0,
        },
        CityDraft {
            name: "東京".to_string(),
            country_code: "JPN".to_string(),
            district: "Tokyo-to".to_string(),
            population: i32::MAX,
        },
    ];
    for (index, draft) in drafts.into_iter().enumerate() {
        let id = index as u64 + 1;
        let created = register(draft.clone(), Ok(id)).unwrap();
        assert_eq!(created.id as u64, id);
        assert_eq!(created.name, draft.name);
        assert_eq!(created.country_code, draft.country_code);
        assert_eq!(created.district, draft.district);
        assert_eq!(created.population, draft.population);
        let found = lookup(&draft.name, Ok(Some(created.clone())));
        assert_eq!(found, Ok(Some(created)));
    }
}

#[test]
fn lookup_without_a_row_is_not_found() {
    assert_eq!(lookup("Nowhere", Ok(None)), Ok(None));
    assert_eq!(lookup("", Ok(None)), Ok(None));
}

#[test]
fn lookup_compares_names_exactly() {
    let tokyo = city(1532, "Tokyo", 7980230);
    assert_eq!(lookup("Tokyo", Ok(Some(tokyo.clone()))), Ok(Some(tokyo.clone())));
    assert_eq!(lookup("tokyo", Ok(Some(tokyo.clone()))), Ok(None));
    assert_eq!(lookup("Tokyo ", Ok(Some(tokyo.clone()))), Ok(None));
    assert_eq!(lookup("Tok", Ok(Some(tokyo))), Ok(None));
}

#[test]
fn lookup_passes_a_store_failure_on() {
    assert_eq!(lookup("Tokyo", Err(StoreError)), Err(StoreError));
}

#[test]
fn same_text_tells_equal_from_different() {
    assert!(same_text("", ""));
    assert!(same_text("Köln", "Köln"));
    assert!(!same_text("Köln", "Koln"));
    assert!(!same_text("a", "A"));
    assert!(!same_text("a", "ab"));
}

#[test]
fn name_from_arguments_defaults_to_tokyo() {
    assert_eq!(name_from_arguments(&vec![]), "Tokyo");
    assert_eq!(name_from_arguments(&vec!["program".to_string()]), "Tokyo");
    assert_eq!(
        name_from_arguments(&vec!["program".to_string(), "Osaka".to_string()]),
        "Osaka"
    );
    assert_eq!(
        name_from_arguments(&vec![
            "program".to_string(),
            "Osaka".to_string(),
            "Kyoto".to_string()
        ]),
        "Osaka"
    );
}

#[test]
fn ratio_of_one_thousand_in_one_hundred_thousand_is_one_percent() {
    let ratio = compute_ratio(&city(1, "Testville", 1000), Ok(Some(country(100000)))).unwrap();
    assert_eq!(ratio, Ratio { city_population: 1000, country_population: 100000 });
    assert_eq!(percent(ratio), 1.0);
}

#[test]
fn ratio_is_the_same_for_the_same_populations() {
    let first = compute_ratio(&city(1, "One", 12345), Ok(Some(country(67890))));
    let second = compute_ratio(
        &city(2, "Two", 12345),
        Ok(Some(CountryPopulation { code: "OTH".to_string(), population: 67890 })),
    );
    assert_eq!(first, second);
    assert_eq!(percent(first.unwrap()), percent(second.unwrap()));
    assert_eq!(percent(first.unwrap()), 12345.0 / 67890.0 * 100.0);
}

#[test]
fn ratio_with_country_population_zero_is_undefined() {
    for population in [0, 1, 1000, i32::MAX, -5] {
        assert_eq!(
            compute_ratio(&city(1, "Testville", population), Ok(Some(country(0)))),
            Err(RatioError::DivisionUndefined)
        );
    }
}

#[test]
fn ratio_without_a_country_is_not_found() {
    assert_eq!(
        compute_ratio(&city(1, "Testville", 1000), Ok(None)),
        Err(RatioError::CountryNotFound)
    );
}

#[test]
fn ratio_with_a_failed_store_is_a_store_error() {
    assert_eq!(
        compute_ratio(&city(1, "Testville", 1000), Err(StoreError)),
        Err(RatioError::Store)
    );
}

#[test]
fn population_command_asks_for_the_country_of_the_city() {
    assert_eq!(
        population_command(&city(1, "Testville", 1000)),
        StoreCommand::FindCountryPopulation { code: "TST".to_string() }
    );
}

#[test]
fn negative_population_is_rejected_before_the_store() {
    let mut draft = testville();
    draft.population = -1;
    assert_eq!(draft.validate(), Err(ValidationError::NegativePopulation));
    assert_eq!(insert_command(&draft), Err(ValidationError::NegativePopulation));
    match begin_post_city(Some(draft.clone())) {
        Step::Ask { command, .. } => panic!("the store was asked: {:?}", command),
        Step::Reply(response) => {
            assert_eq!(response.status, Status::BadRequest);
            assert_eq!(
                response.body,
                Body::Error("population must not be negative".to_string())
            );
        }
    }
    assert_eq!(
        register(draft, Ok(1)),
        Err(RegistrationError::Validation(ValidationError::NegativePopulation))
    );
}

#[test]
fn empty_name_is_rejected() {
    let mut draft = testville();
    draft.name = String::new();
    assert_eq!(draft.validate(), Err(ValidationError::EmptyName));
    assert_eq!(insert_command(&draft), Err(ValidationError::EmptyName));
    assert_eq!(
        register(draft.clone(), Ok(1)),
        Err(RegistrationError::Validation(ValidationError::EmptyName))
    );
    draft.population = i32::MIN;
    assert_eq!(draft.validate(), Err(ValidationError::NegativePopulation));
}

#[test]
fn population_zero_is_accepted() {
    let mut draft = testville();
    draft.population = 0;
    assert_eq!(draft.validate(), Ok(()));
    assert_eq!(register(draft, Ok(9)).unwrap().population, 0);
}

#[test]
fn register_surfaces_a_store_failure() {
    assert_eq!(register(testville(), Err(StoreError)), Err(RegistrationError::Store));
}

#[test]
fn register_refuses_an_identifier_no_city_can_bear() {
    assert_eq!(register(testville(), Ok(0)), Err(RegistrationError::Store));
    assert_eq!(register(testville(), Ok(2147483648)), Err(RegistrationError::Store));
    assert_eq!(register(testville(), Ok(u64::MAX)), Err(RegistrationError::Store));
    assert_eq!(register(testville(), Ok(1)).unwrap().id, 1);
    assert_eq!(register(testville(), Ok(2147483647)).unwrap().id, i32::MAX);
}

#[test]
fn get_city_found_is_200_with_the_city() {
    let tokyo = city(1532, "Tokyo", 7980230);
    assert_eq!(
        get_city("Tokyo", Ok(Some(tokyo.clone()))),
        Response { status: Status::Success, body: Body::City(tokyo) }
    );
}

#[test]
fn get_city_nowhere_is_404_and_names_the_city() {
    let response = get_city("Nowhere", Ok(None));
    assert_eq!(response.status, Status::NotFound);
    assert_eq!(response.status.code(), 404);
    match response.body {
        Body::Error(text) => {
            assert!(text.contains("Nowhere"));
            assert_eq!(text, "No such city Name = Nowhere");
        }
        other => panic!("not an error body: {:?}", other),
    }
}

#[test]
fn get_city_with_a_row_of_another_name_is_404() {
    let response = get_city("tokyo", Ok(Some(city(1532, "Tokyo", 7980230))));
    assert_eq!(
        response,
        Response {
            status: Status::NotFound,
            body: Body::Error("No such city Name = tokyo".to_string())
        }
    );
}

#[test]
fn get_city_store_failure_is_500_with_a_fixed_text() {
    let response = get_city("Tokyo", Err(StoreError));
    assert_eq!(
        response,
        Response {
            status: Status::InternalServerError,
            body: Body::Error("internal server error".to_string())
        }
    );
    assert_eq!(response, lookup_response("Osaka", Err(StoreError)));
}

#[test]
fn post_city_without_a_readable_body_is_400() {
    assert_eq!(
        begin_post_city(None),
        Step::Reply(Response {
            status: Status::BadRequest,
            body: Body::Error("Bad Request".to_string())
        })
    );
}

#[test]
fn post_city_with_a_valid_draft_asks_the_store_and_answers_200() {
    let draft = testville();
    assert_eq!(
        begin_post_city(Some(draft.clone())),
        Step::Ask {
            command: StoreCommand::InsertCity { draft: draft.clone() },
            draft: draft.clone()
        }
    );
    assert_eq!(
        finish_post_city(draft, Ok(4080)),
        Response { status: Status::Success, body: Body::City(city(4080, "Testville", 1000)) }
    );
}

#[test]
fn post_city_store_failure_is_500() {
    assert_eq!(
        finish_post_city(testville(), Err(StoreError)),
        Response {
            status: Status::InternalServerError,
            body: Body::Error("internal server error".to_string())
        }
    );
}

#[test]
fn registration_response_for_an_empty_name_is_400() {
    assert_eq!(
        registration_response(Err(RegistrationError::Validation(ValidationError::EmptyName))),
        Response {
            status: Status::BadRequest,
            body: Body::Error("name must not be empty".to_string())
        }
    );
}

#[test]
fn ratio_response_maps_each_outcome_to_its_status() {
    let subject = city(1, "Testville", 1000);
    let ratio = Ratio { city_population: 1000, country_population: 100000 };
    assert_eq!(
        ratio_response(&subject, Ok(ratio)),
        Response { status: Status::Success, body: Body::Ratio(ratio) }
    );
    assert_eq!(
        ratio_response(&subject, Err(RatioError::CountryNotFound)),
        Response {
            status: Status::NotFound,
            body: Body::Error("No such country Code = TST".to_string())
        }
    );
    assert_eq!(
        ratio_response(&subject, Err(RatioError::DivisionUndefined)),
        Response {
            status: Status::UnprocessableEntity,
            body: Body::Error("country population is zero".to_string())
        }
    );
    assert_eq!(
        ratio_response(&subject, Err(RatioError::Store)),
        Response {
            status: Status::InternalServerError,
            body: Body::Error("internal server error".to_string())
        }
    );
}

#[test]
fn status_codes_are_the_usual_numbers() {
    assert_eq!(Status::Success.code(), 200);
    assert_eq!(Status::BadRequest.code(), 400);
    assert_eq!(Status::NotFound.code(), 404);
    assert_eq!(Status::UnprocessableEntity.code(), 422);
    assert_eq!(Status::InternalServerError.code(), 500);
}

#[test]
fn statements_and_parameters_of_each_command() {
    let find = lookup_command("Tokyo");
    assert_eq!(find.statement(), "SELECT * FROM city WHERE Name = ?");
    assert_eq!(find.parameters(), vec![Parameter::Text("Tokyo".to_string())]);

    let population = population_command(&city(1, "Testville", 1000));
    assert_eq!(population.statement(), "SELECT Population FROM country WHERE Code = ?");
    assert_eq!(population.parameters(), vec![Parameter::Text("TST".to_string())]);

    let insert = insert_command(&testville()).unwrap();
    assert_eq!(
        insert.statement(),
        "INSERT INTO city (Name, CountryCode, District, Population) VALUES (?, ?, ?, ?)"
    );
    assert_eq!(
        insert.parameters(),
        vec![
            Parameter::Text("Testville".to_string()),
            Parameter::Text("TST".to_string()),
            Parameter::Text("TestDistrict".to_string()),
            Parameter::Integer(1000),
        ]
    );
}

#[test]
fn city_columns_have_the_names_of_the_table() {
    assert_eq!(CityColumn::Id.name(), "ID");
    assert_eq!(CityColumn::Name.name(), "Name");
    assert_eq!(CityColumn::CountryCode.name(), "CountryCode");
    assert_eq!(CityColumn::District.name(), "District");
    assert_eq!(CityColumn::Population.name(), "Population");
}
