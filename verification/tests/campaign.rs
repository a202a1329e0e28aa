use crowdfunding_ledger::creation::create_project;
use crowdfunding_ledger::creation::CreateProject;
use crowdfunding_ledger::creation::CreationMode;
use crowdfunding_ledger::derivation::find_project_address;
use crowdfunding_ledger::error::LedgerError;
use crowdfunding_ledger::identity::Identity;
use crowdfunding_ledger::investment::authorize_transfer;
use crowdfunding_ledger::investment::invest;
use crowdfunding_ledger::investment::Invest;

fn key(fill: u8) -> Identity {
    Identity::new([fill; 32])
}

fn invest_as(accounts: &mut Invest, who: Identity, amount: u64, program: &Identity) -> Result<(), LedgerError> {
    accounts.user = who;
    accounts.user_signed = true;
    let request = authorize_transfer(accounts, amount, program)?;
    assert_eq!(request.instruction.accounts[0].pubkey, who);
    invest(accounts, amount, program, Ok(()))
}

#[test]
fn library_campaign() {
    let program = key(9);
    let (a, b, c) = (key(1), key(2), key(3));
    let address = find_project_address("Library", &a, &program).unwrap().address;

    let mut creation = CreateProject { project_key: address, project: None, state: None, user: a, user_signed: true };
    let created = create_project(
        &mut creation,
        String::from("Library"),
        String::from("A library for the village"),
        1000,
        1_700_000_000,
        &program,
        CreationMode::CreateOrOverwrite,
        Ok(()),
    );
    assert_eq!(created, Ok(()));
    let record = creation.project.clone().unwrap();
    assert_eq!(record.target, 1000);
    assert_eq!(record.amount_collected, 0);
    assert_eq!(record.investor_count, 0);
    assert_eq!(record.creator, a);

    let mut accounts = Invest { project_key: address, project: creation.project, user: b, user_signed: true };

    assert_eq!(invest_as(&mut accounts, b, 300, &program), Ok(()));
    assert_eq!(accounts.project.as_ref().unwrap().amount_collected, 300);
    assert_eq!(accounts.project.as_ref().unwrap().investor_count, 1);

    assert_eq!(invest_as(&mut accounts, b, 200, &program), Ok(()));
    assert_eq!(accounts.project.as_ref().unwrap().amount_collected, 500);
    assert_eq!(accounts.project.as_ref().unwrap().investor_count, 1);

    assert_eq!(invest_as(&mut accounts, c, 100, &program), Ok(()));
    assert_eq!(accounts.project.as_ref().unwrap().amount_collected, 600);
    assert_eq!(accounts.project.as_ref().unwrap().investor_count, 2);
    assert_eq!(accounts.project.as_ref().unwrap().investors, vec![b, c]);
}
